[package]
name = "tokio_centrifuge"
version = "0.1.0"
edition = "2021"
publish = false

[dependencies]
anyhow = "1"
futures = "0.3"
log = "0.4"
matchit = "0.8"
prost = "0.13"
serde = { version = "1", features = ["derive"] }
serde_json = "1"
slotmap = "1"
thiserror = "2"
tokio = { version = "1", features = ["full"] }
tokio-tungstenite = "0.26"
uuid = { version = "1", features = ["v4"] }
