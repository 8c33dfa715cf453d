[package]
name = "dahara_fuel_calc"
version = "0.1.0"
edition = "2021"
publish = false

[dependencies]
futures = "0.3"
pitwall = "0.1.0"
serde = { version = "1", features = ["derive"] }
serde_json = "1"
tauri = { version = "2", default-features = false, features = ["tray-icon", "image-png"] }
tokio = { version = "1", features = ["macros", "rt", "time", "process", "io-util"] }
tracing-subscriber = { version = "0.3", default-features = false, features = ["std", "fmt", "env-filter"] }
