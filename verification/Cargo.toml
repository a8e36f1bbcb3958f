[package]
name = "meic_mq"
version = "0.1.0"
edition = "2021"
publish = false

[dependencies]
bson = "2"
lazy_static = "1"
serde = { version = "1", features = ["derive"] }
serde_bytes = "0.11"
uuid = { version = "1", features = ["v4"] }
zmq = "*"
