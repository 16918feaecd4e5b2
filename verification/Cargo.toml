[package]
name = "casper_x402"
version = "0.1.0"
edition = "2021"
publish = false

[dependencies]
casper-types = { version = "=7.0.0", features = ["std"] }
casper-eip-712 = "=1.2.0"
hex = "=0.4.3"
base64 = "=0.22.1"
serde = { version = "=1.0.229", features = ["derive"] }
serde_json = "=1.0.154"
anyhow = "=1.0.104"
rand = "=0.8.8"
dotenv = "=0.15.0"
tokio = { version = "=1.54.1", features = ["full"] }
axum = "=0.8.9"
reqwest = { version = "=0.12.28", default-features = false, features = ["json", "rustls-tls"] }
odra-core = "=2.9.1"
odra-casper-livenet-env = "=2.9.1"
