[package]
name = "media_relay"
version = "0.1.0"
edition = "2021"
publish = false

[dependencies]
anyhow = "=1.0.104"
base64 = "=0.13.1"
hyper = { version = "=0.14.32", features = ["full"] }
serde_json = "=1.0.154"
tokio = { version = "=1.54.1", features = ["full"] }
webrtc = "0.6"
