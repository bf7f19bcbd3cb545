[package]
name = "recorder"
version = "0.1.0"
edition = "2021"
publish = false

[dependencies]
flume = "*"
uuid = { version = "*", features = ["v4"] }
thiserror = "*"
clap = { version = "*", features = ["derive"] }
