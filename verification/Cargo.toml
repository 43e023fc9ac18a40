[package]
name = "jito_sdk_rust"
version = "0.1.0"
edition = "2021"
publish = false

[dependencies]
anyhow = "1"
base64 = "0.22"
bincode = "1.3"
rand = "0.9"
reqwest = { version = "0.12", default-features = false, features = ["json", "rustls-tls"] }
serde_json = "1"
solana-transaction = { version = "2.2", features = ["serde"] }
tracing = "0.1"
