[package]
name = "training_scheduler"
version = "0.1.0"
edition = "2021"
publish = false

[dependencies]
uuid = { version = "*", features = ["v4"] }
chrono = "*"
axum = "*"
tokio = { version = "*", features = ["rt-multi-thread", "macros", "net"] }
tracing = "*"
tracing-subscriber = "*"
metrics = "*"
metrics-exporter-prometheus = { version = "*", default-features = false }
metrics-util = "*"
