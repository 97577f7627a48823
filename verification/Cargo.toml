[package]
name = "blockchain_node"
version = "0.1.0"
edition = "2021"
publish = false

[dependencies]
bincode = { version = "2", features = ["serde"] }
serde = "1"
sha2 = "0.10"
chrono = "0.4"
tokio = { version = "1", features = ["full"] }
log = "0.4"
env_logger = "*"
rand = "0.8"
