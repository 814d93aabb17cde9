[package]
name = "mqtt_broker"
version = "0.1.0"
edition = "2021"
publish = false

[dependencies]
serde = { version = "1", features = ["derive"] }
serde_json = "1"
prometheus = { version = "0.13", default-features = false }
lazy_static = "1"
tokio = { version = "1", features = ["sync", "time", "macros", "rt"] }
tracing = "0.1"
