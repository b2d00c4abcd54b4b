[package]
name = "pulse_stream"
version = "0.1.0"
edition = "2021"
publish = false

[dependencies]
cubeb-backend = { version = "=0.38.0", features = ["gecko-in-tree"] }
