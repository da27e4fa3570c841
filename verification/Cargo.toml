[package]
name = "healthz"
version = "0.1.0"
edition = "2021"
publish = false

[dependencies]
async-signals = "*"
async-std = { version = "1", features = ["attributes"] }
