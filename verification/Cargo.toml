[package]
name = "rustygate"
version = "0.1.0"
edition = "2021"
publish = false

[dependencies]
bacnet-rs = "=0.2.2"
tokio = { version = "=1.53.2", features = ["full"] }
axum = "=0.8.9"
async-stream = "=0.3.6"
futures = "=0.3.34"
if-addrs = "=0.15.0"
env_logger = "=0.11.11"
log = "=0.4.34"
hex = "=0.4.3"
serde = { version = "=1.0.229", features = ["derive"] }
anyhow = "=1.0.104"
