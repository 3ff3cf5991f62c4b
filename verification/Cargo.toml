[package]
name = "greeter"
version = "0.1.0"
edition = "2021"
publish = false

[dependencies]
serde_json = "=1.0.151"
solana-sdk = "=5.0.0"
bincode = "=1.3.3"
bs58 = "=0.5.1"
tokio = { version = "=1.53.2", features = ["rt", "macros"] }
