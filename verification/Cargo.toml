[package]
name = "beslink"
version = "0.1.0"
edition = "2021"
publish = false

[dependencies]
serialport = { version = "4", default-features = false }
tracing = "0.1"
