[package]
name = "wallet_scan"
version = "0.1.0"
edition = "2021"
publish = false

[dependencies]
anyhow = "=1.0.104"
reqwest = { version = "=0.11.27", default-features = false, features = ["blocking", "json", "rustls-tls"] }
serde_json = "=1.0.154"
solana-sdk = "=1.18.26"
spl-token = { version = "=4.0.3", default-features = false }
