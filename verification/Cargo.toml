[package]
name = "pgm_monit"
version = "0.1.0"
edition = "2021"
publish = false

[dependencies]
dotenv = "0.15"
error-chain = "0.12"
mongodb = "2"
serde = { version = "1", features = ["derive"] }
solana-account-decoder = "=1.14.29"
solana-program = "=1.14.29"
solana-sdk = "=1.14.29"
solana-transaction-status = "=1.14.29"
tokio = { version = "1", features = ["macros", "rt-multi-thread"] }
