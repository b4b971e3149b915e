[package]
name = "activity_monitor"
version = "0.1.0"
edition = "2021"
publish = false

[dependencies]
anyhow = "1"
chrono = "0.4"
csv = "1"
device_query = "2.1"
serde = { version = "1", features = ["derive"] }
