[package]
name = "debugchrome"
version = "0.1.0"
edition = "2021"
publish = false

[dependencies]
base64 = "*"
rand = "*"
serde_json = "*"
tokio = { version = "*", features = ["full"] }
tokio-tungstenite = "*"
futures-util = "*"
futures = "*"
reqwest = { version = "*", default-features = false, features = ["json"] }
url = "*"
dirs = "*"
chrono = "*"
