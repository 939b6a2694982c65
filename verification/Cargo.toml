[package]
name = "solar_telemetry"
version = "0.1.0"
edition = "2021"
publish = false

[dependencies]
chrono = "0.4"
chrono-tz = "0.8"
clap = { version = "4", features = ["derive"] }
http-auth = "0.1"
serde = "1"
serde_json = "1"
ureq = "2"
