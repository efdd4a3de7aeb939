[package]
name = "slot_miner"
version = "0.1.0"
edition = "2021"
publish = false

[dependencies]
scraper = "=0.27.0"
openssl = "=0.10.81"
base64 = "=0.13.1"
reqwest = { version = "=0.13.5", features = ["cookies", "form"] }
tokio = { version = "=1.53.2", features = ["full"] }
chrono = { version = "=0.4.45", features = ["serde"] }
serde = { version = "=1.0.229", features = ["derive"] }
serde_json = "=1.0.151"
argh = "=0.1.19"
env_logger = "=0.11.11"
log = "=0.4.34"
