[package]
name = "solkit"
version = "0.1.0"
edition = "2021"
publish = false

[dependencies]
bs58 = "=0.5.1"
base64 = "=0.22.1"
solana-sdk = "=2.3.1"
spl-token = "=8.0.0"
spl-associated-token-account = "=7.0.0"
axum = "=0.8.9"
tokio = { version = "=1.54.1", features = ["rt-multi-thread", "macros", "net"] }
serde = { version = "=1.0.229", features = ["derive"] }
serde_json = "=1.0.154"
dotenv = "=0.15.0"
tracing = "=0.1.44"
tracing-subscriber = "=0.3.23"
utoipa = "=5.5.0"
