# DAHARA Fuel Calc — verified core

An always-on-top iRacing overlay that tells how many liters to add at the next pit
stop. This crate holds the overlay's decision logic, proved with Verus:

- `src/telemetry/rolling.rs` — `CappedBuffer`, the rolling window of the newest values.
- `src/telemetry/sf_detector.rs` — `SFDetector`, start/finish crossing detection.
- `src/telemetry/coordinator.rs` — `CrossingHistory`, the detector plus the fuel and
  lap-time histories recorded at crossings.
- `src/telemetry/fuel.rs` — lap-limited session detection and the confidence rule.
- `src/telemetry/session.rs` — parsing of session-info strings.
- `src/telemetry/monitor.rs` — status, heartbeat and stall decisions of the telemetry pump.
- `src/connection.rs` — reconnect attempts, error chains and connection hints.
- `src/window.rs` — overlay position (it opens at (20, 20)), the saved-position file,
  move mode and tray menu commands.
- `src/sidecar.rs` — where the Node sidecar is looked for and what to do with each
  line it writes.
- `src/json.rs` — the JSON reading, done by `serde_json` behind two trusted wrappers.
- `src/text.rs` — trimming, case-insensitive comparison and integer parsing on chars.

`app/` is the Tauri host around it: window and tray calls, the pitwall telemetry
streams, file I/O and the floating-point fuel arithmetic.
