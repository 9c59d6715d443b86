[package]
name = "aci"
version = "0.1.0"
edition = "2021"
publish = false

[dependencies]
url = "2"
serde_json = "1"
tokio = { version = "1", features = ["rt-multi-thread", "macros", "sync", "net"] }
tokio-tungstenite = "0.17"
futures-util = { version = "0.3", features = ["sink"] }
chashmap = "2"
