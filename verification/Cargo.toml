[package]
name = "tap_log"
version = "0.1.0"
edition = "2021"
publish = false

[dependencies]
tracing = { version = "0.1", default-features = false, features = ["std"] }
