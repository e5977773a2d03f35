[package]
name = "sui_rest_api"
version = "0.1.0"
edition = "2021"
publish = false

[dependencies]
axum = "=0.8.9"
serde = { version = "=1.0.229", features = ["derive"] }
serde_with = { version = "=3.24.0", features = ["base64"] }
serde_json = "=1.0.151"
tokio = { version = "*", features = ["full"] }
