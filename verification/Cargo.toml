[package]
name = "clmm_client"
version = "0.1.0"
edition = "2021"
publish = false

[dependencies]
anchor-lang = "=0.29.0"
anyhow = "=1.0.104"
clap = { version = "=4.6.7", features = ["derive"] }
rand = "=0.7.3"
raydium-amm-v3 = { version = "=0.1.0", features = ["no-entrypoint"] }
serde = { version = "=1.0.229", features = ["derive"] }
serde_json = "=1.0.154"
solana-sdk = "=1.16.25"
spl-associated-token-account = "=2.2.0"
spl-memo = "=4.0.0"
spl-token = "=4.0.0"
spl-token-2022 = "=0.9.0"
toml = "=0.8.23"
