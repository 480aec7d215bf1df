[package]
name = "ws_gateway"
version = "0.1.0"
edition = "2021"
publish = false

[dependencies]
uuid = { version = "=1.29.0", features = ["v4", "serde"] }
tokio-tungstenite = { version = "=0.30.0", default-features = false }
axum = { version = "=0.8.9", features = ["ws"] }
futures-util = "=0.3.34"
tokio = { version = "=1.54.1", features = ["full"] }
serde = { version = "=1.0.229", features = ["derive"] }
serde_json = "=1.0.154"
serde_repr = "=0.1.21"
form_urlencoded = "=1.2.2"
percent-encoding = "=2.3.2"
log = { version = "=0.4.34", features = ["kv_std"] }
