[package]
name = "raydium_amm"
version = "0.3.0"
edition = "2021"
publish = false

[dependencies]
solana-program = "=1.18.26"
spl-token = { version = "=4.0.3", features = ["no-entrypoint"] }
spl-associated-token-account = { version = "=2.3.0", features = ["no-entrypoint"] }
serum_dex = "=0.5.4"
serde = { version = "=1.0.229", features = ["derive"] }
bincode = "=1.3.3"
base64 = "=0.13.1"
arrform = "=0.1.1"
solana-security-txt = "=1.1.3"
num-traits = "=0.2.19"
