[package]
name = "fe2o3_amqp"
version = "0.1.0"
edition = "2021"
publish = false

[dependencies]
serde_amqp = "*"
slab = "*"
tokio = { version = "*", features = ["rt", "sync", "time", "macros"] }
