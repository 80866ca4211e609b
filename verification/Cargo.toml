[package]
name = "redactor"
version = "0.1.0"
edition = "2021"
publish = false

[dependencies]
actix = "0.13"
futures = "0.3"
redis = { version = "0.23", features = ["aio", "tokio-comp"] }
