[package]
name = "ljmrs"
version = "0.1.0"
edition = "2021"
publish = false

[dependencies]
libloading = "0.8"
tokio = { version = "1", default-features = false, features = ["time"] }
