[package]
name = "nostr_client"
version = "0.1.0"
edition = "2021"
publish = false

[dependencies]
anyhow = "1"
futures-util = "0.3"
hex = "0.4"
rand = "0.8"
ratatui = "0.26"
crossterm = "0.27"
secp256k1 = { version = "0.28", features = ["rand-std", "hashes-std"] }
serde = { version = "1", features = ["derive"] }
serde_json = "1"
tokio = { version = "1", features = ["full"] }
tokio-tungstenite = "0.21"
