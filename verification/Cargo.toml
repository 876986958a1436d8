[package]
name = "minilink"
version = "0.1.0"
edition = "2021"
publish = false

[dependencies]
chrono = "0.4"
serde_json = "1"
sqlite = "*"
tokio = { version = "1", features = ["full"] }
tokio-native-tls = "0.3"
