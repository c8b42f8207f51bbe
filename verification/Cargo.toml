[package]
name = "arb_engine"
version = "0.1.0"
edition = "2021"
publish = false

[dependencies]
solana-sdk = "=2.3.1"
solana-program = "=2.3.0"
bincode = "=1.3.3"
bs58 = "=0.5.1"
base64 = "=0.23.1"
serde = { version = "1", features = ["derive"] }
serde_json = "1"
reqwest = { version = "=0.13.5", default-features = false, features = ["json", "query"] }
tokio = { version = "1", features = ["macros", "rt-multi-thread", "time"] }
futures = "0.3"
