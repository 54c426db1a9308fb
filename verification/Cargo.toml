[package]
name = "websocket_bridge"
version = "0.1.0"
edition = "2021"
publish = false

[dependencies]
base64 = "0.22"
futures-util = "0.3"
http = "1"
hyper = { version = "1", features = ["client", "http1"] }
hyper-util = { version = "0.1", features = ["tokio"] }
rand = "0.8"
serde = { version = "1", features = ["derive"] }
serde_json = "1"
thiserror = "1"
tokio = { version = "1", features = ["io-std", "io-util", "macros", "net", "rt", "rt-multi-thread", "sync"] }
tokio-tungstenite = { version = "0.26", features = ["native-tls"] }
