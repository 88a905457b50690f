[package]
name = "rocust"
version = "0.1.0"
edition = "2021"
publish = false

[dependencies]
rand = "0.8"
url = "2"
chrono = "0.4"
serde = { version = "1", features = ["derive"] }
serde_json = "1"
tokio = { version = "1", features = ["full"] }
tokio-util = "0.7"
parking_lot = "0.12"
async-trait = "0.1"
futures-util = { version = "0.3", features = ["sink"] }
futures-channel = { version = "0.3", features = ["sink"] }
reqwest = { version = "0.11", default-features = false }
poem = { version = "1", features = ["websocket"] }
tokio-tungstenite = "0.18"
prettytable-rs = "0.10"
tracing-subscriber = "0.3"
