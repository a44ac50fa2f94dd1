[package]
name = "stat_api_rs"
version = "0.1.0"
edition = "2021"
publish = false

[dependencies]
uuid = { version = "=1.29.0", features = ["v4"] }
serde = { version = "=1.0.229", features = ["derive"] }
serde_json = "=1.0.154"
serde_yaml = "0.9"
ua-parser = "=0.2.2"
chrono = "=0.4.45"
cookie = "=0.18.2"
time = "=0.3.55"
tracing = "=0.1.44"
async-trait = "=0.1.92"
