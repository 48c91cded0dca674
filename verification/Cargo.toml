[package]
name = "teleton"
version = "0.1.0"
edition = "2021"
publish = false

[dependencies]
base64 = "=0.22.1"
rand = "=0.8.8"
axum = "=0.7.9"
tokio = { version = "=1.53.2", features = ["full"] }
serde = { version = "=1.0.229", features = ["derive"] }
serde_json = "=1.0.151"
qrcode = { version = "=0.14.1", default-features = false }
grammers-client = "=0.8.1"
grammers-mtsender = "=0.8.1"
