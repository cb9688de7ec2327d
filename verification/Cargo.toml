[package]
name = "solana_governance_cli"
version = "0.1.0"
edition = "2021"
publish = false

[dependencies]
base64 = "=0.22.1"
clap = { version = "*", features = ["derive"] }
eyre = "*"
serde_json = "*"
solana-sdk = "=2.3.1"
