[package]
name = "amqp_examples"
version = "0.1.0"
edition = "2021"
publish = false

[dependencies]
amiquip = { version = "0.4", default-features = false }
uuid = { version = "1", features = ["v4"] }
