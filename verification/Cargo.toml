[package]
name = "quarterdeck"
version = "0.1.0"
edition = "2021"
publish = false

[dependencies]
axum = "0.8"
notify = "8"
serde = { version = "1", features = ["derive"] }
serde_json = "1"
sysinfo = "0.33"
tokio = { version = "1", features = ["rt-multi-thread", "macros", "sync", "time", "net"] }
tokio-stream = "0.1"
tracing = "0.1"
tracing-appender = "0.2"
tracing-subscriber = { version = "0.3", features = ["env-filter"] }
unicode-segmentation = "1"
