[package]
name = "solana-artifacts"
version = "0.1.0"
edition = "2021"
publish = false

[dependencies]
axum = "=0.7.9"
base64 = "=0.21.7"
bs58 = "=0.4.0"
serde = { version = "=1.0.229", features = ["derive"] }
serde_json = "=1.0.154"
solana-sdk = "=1.18.26"
spl-token = "=4.0.3"
tokio = { version = "=1.54.1", features = ["macros", "net", "rt-multi-thread"] }
tower = "=0.4.13"
tower-http = { version = "=0.5.2", features = ["cors"] }
tracing-subscriber = "=0.3.23"
