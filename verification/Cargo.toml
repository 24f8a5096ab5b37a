[package]
name = "fleetwake"
version = "0.1.0"
edition = "2021"
publish = false

[dependencies]
openssh = "*"
serde = { version = "1", features = ["derive"] }
serde_yaml = "*"
tokio = { version = "1", features = ["full"] }
tokio-cron-scheduler = "*"
tracing = "*"
tracing-subscriber = "*"
wakey = "*"
