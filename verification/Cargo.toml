[package]
name = "shield"
version = "0.1.0"
edition = "2021"
publish = false

[dependencies]
sentry-uapi = { version = "=0.4.8", features = ["std"] }
syn = "=2.0.119"
quote = "=1.0.47"
