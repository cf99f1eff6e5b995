[package]
name = "realtime_client"
version = "0.1.0"
edition = "2021"
publish = false

[dependencies]
base64 = "0.22"
rand = "0.8"
serde = { version = "1", features = ["derive"] }
serde_json = "1"
anyhow = "1"
log = "0.4"
tokio = { version = "1", features = ["full"] }
tokio-tungstenite = { version = "0.24", features = ["rustls-tls-webpki-roots"] }
futures-util = "0.3"
rodio = "0.19"
cpal = "0.15"
voice_activity_detector = "0.1"
