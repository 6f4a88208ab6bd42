[package]
name = "ardutils"
version = "0.1.0"
edition = "2021"
publish = false

[dependencies]
mavlink = "*"
tokio = { version = "*", features = ["rt", "sync", "time"] }
serde = { version = "*", features = ["derive"] }
