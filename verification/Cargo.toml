[package]
name = "phonebridge"
version = "0.1.0"
edition = "2021"
publish = false

[dependencies]
anyhow = "1"
async-trait = "0.1"
btleplug = "0.11"
cpal = "0.15"
crossbeam-channel = "0.5"
env_logger = "0.11"
hex = "0.4"
log = "0.4"
opus = "0.3"
parking_lot = "0.12"
rand = "0.8"
rcgen = "0.13"
rustls = { version = "0.23", default-features = false, features = ["ring", "std", "logging", "tls12"] }
rustls-pemfile = "2"
serde = { version = "1", features = ["derive"] }
serde_json = "1"
sha2 = "0.10"
tokio = { version = "1", features = ["full"] }
tokio-rustls = { version = "0.26", default-features = false, features = ["ring", "logging", "tls12"] }
tokio-tungstenite = "0.24"
uuid = "1"
zbus = "4"
