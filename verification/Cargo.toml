[package]
name = "logmon"
version = "0.1.0"
edition = "2021"
publish = false

[dependencies]
chrono = "*"
num-format = "*"
tokio = { version = "*", features = ["full"] }
