[package]
name = "ntp_codec"
version = "0.1.0"
edition = "2021"
publish = false

[dependencies]
chrono = "*"
tokio = { version = "*", features = ["full"] }
bytes = "*"
tracing = "*"
tracing-subscriber = "*"
