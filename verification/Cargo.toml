[package]
name = "boom"
version = "0.1.0"
edition = "2021"
publish = false

[dependencies]
anyhow = "1"
fastrand = "2"
tokio = { version = "1", features = ["full"] }
tokio-serial = "5"
tracing = "0.1"
tracing-appender = "0.2"
tracing-subscriber = { version = "0.3", features = ["fmt", "time"] }
