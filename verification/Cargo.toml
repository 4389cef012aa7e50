[package]
name = "fileserv"
version = "0.1.0"
edition = "2021"
publish = false

[dependencies]
chrono = "*"
hyper = { version = "0.14", features = ["full"] }
tokio = { version = "1", features = ["full"] }
