[package]
name = "pca9685"
version = "0.1.0"
edition = "2021"
publish = false

[dependencies]
log = "*"
rppal = "*"
tokio = { version = "*", features = ["time"] }
