//! Verified core of the DAHARA fuel calculator overlay.

pub mod telemetry;
pub mod text;
pub mod connection;
pub mod window;
pub mod json;
pub mod sidecar;
