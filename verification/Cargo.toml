[package]
name = "service_registry"
version = "0.1.0"
edition = "2021"
publish = false

[dependencies]
serde = { version = "=1.0.229", features = ["derive"] }
serde_json = "=1.0.151"
chrono = { version = "=0.4.45", features = ["serde"] }
