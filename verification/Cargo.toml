[package]
name = "reality_server"
version = "0.1.0"
edition = "2021"
publish = false

[dependencies]
aws-lc-rs = "1"
rustls-pki-types = { version = "1", features = ["std"] }
