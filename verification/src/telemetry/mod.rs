//! Telemetry-side logic: lap detection, rolling histories and session parsing.

pub mod rolling;
pub mod sf_detector;
pub mod session;
pub mod fuel;
pub mod coordinator;
pub mod monitor;
