[package]
name = "amqprs_pool"
version = "0.1.0"
edition = "2021"
publish = false

[dependencies]
amqprs = "*"
tokio = { version = "*", features = ["rt"] }
