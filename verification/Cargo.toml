[package]
name = "message_bus"
version = "0.1.0"
edition = "2021"
publish = false

[dependencies]
serde = "1"
serde_json = "1"
uuid = { version = "1", features = ["v4"] }
rand = "0.8"
zeromq = "*"
tokio = { version = "1", features = ["rt-multi-thread", "macros", "time"] }
