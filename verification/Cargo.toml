[package]
name = "paper_client"
version = "0.1.0"
edition = "2021"
publish = false

[dependencies]
paper-utils = { version = "=1.3.0", features = ["tokio"] }
tokio = { version = "=1.54.1", features = ["io-util", "net", "rt", "macros"] }
