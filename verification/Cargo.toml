[package]
name = "solana_gateway"
version = "0.1.0"
edition = "2021"
publish = false

[dependencies]
bs58 = "0.4"
base64 = "0.21"
ed25519-dalek = "1.0.1"
solana-program = "1.18"
solana-sdk = "1.18"
spl-token = "4.0"
spl-associated-token-account = "2.3"
serde = { version = "1", features = ["derive"] }
serde_json = "1"
axum = "0.7"
tokio = { version = "1", features = ["full"] }
tower-http = { version = "0.5", features = ["cors"] }
tracing-subscriber = "0.3"
