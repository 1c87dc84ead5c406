[package]
name = "speedracer"
version = "0.1.0"
edition = "2021"
publish = false

[dependencies]
eyre = "*"
futures = "*"
tokio = { version = "*", features = ["rt", "time"] }
