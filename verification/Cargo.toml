[package]
name = "rabbit_rpc"
version = "0.1.0"
edition = "2021"
publish = false

[dependencies]
amqprs = "*"
async-trait = "0.1"
serde = "1"
serde_json = "1"
tokio = { version = "1", features = ["sync"] }
uuid = { version = "1", features = ["v4"] }
