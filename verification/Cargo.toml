[package]
name = "chat_core"
version = "0.1.0"
edition = "2021"
publish = false

[dependencies]
serde_json = "1"
uuid = { version = "1", features = ["v4"] }
futures = "0.3"
tokio = { version = "1", features = ["macros", "rt", "net", "time"] }
tokio-tungstenite = "*"
