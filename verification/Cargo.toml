[package]
name = "wallet_auth"
version = "0.1.0"
edition = "2021"
publish = false

[dependencies]
base64 = "=0.21.7"
hex = "=0.4.3"
k256 = { version = "=0.13.4", features = ["ecdsa", "sha256"] }
ecdsa = "=0.16.9"
tendermint = { version = "=0.40.4", features = ["secp256k1"] }
jsonwebtoken = "=9.3.1"
serde = { version = "=1.0.229", features = ["derive"] }
serde_json = "=1.0.154"
chrono = "=0.4.45"
anyhow = "=1.0.104"
thiserror = "=1.0.69"
axum = "=0.6.20"
tokio = { version = "=1.54.1", features = ["rt-multi-thread", "macros"] }
tower-http = { version = "=0.4.4", features = ["cors"] }
http = "=0.2.12"
log = "=0.4.34"
bincode = "=1.3.3"
diesel = { version = "=2.3.14", features = ["mysql"] }
dotenv = "=0.15.0"
keystore-rs = "0.3"
