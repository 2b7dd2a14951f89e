[package]
name = "hickory-to-socket-addrs"
version = "0.1.0"
edition = "2021"
publish = false

[dependencies]
hickory-resolver = "0.25"
tokio = { version = "1", features = ["rt"] }
