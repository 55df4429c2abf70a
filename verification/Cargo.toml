[package]
name = "solana_client_helpers"
version = "0.1.0"
edition = "2021"
publish = false

[dependencies]
solana-sdk = "=1.18.26"
spl-token = { version = "=3.5.0", features = ["no-entrypoint"] }
spl-associated-token-account = { version = "=1.1.3", features = ["no-entrypoint"] }
spl-token-swap = { version = "=3.0.0", features = ["no-entrypoint"] }
thiserror = "1"
