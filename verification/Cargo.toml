[package]
name = "arbitrage"
version = "0.1.0"
edition = "2021"
publish = false

[dependencies]
chrono = "*"
ethers-core = { version = "*", default-features = false }
ethers-providers = { version = "*", default-features = false, features = ["ws", "rustls"] }
ethers-signers = { version = "*", default-features = false }
ethers-contract = { version = "*", default-features = false, features = ["providers"] }
tokio = { version = "*", features = ["rt-multi-thread", "macros"] }
futures-util = "*"
anyhow = "*"
log = "*"
serde_json = "*"
dotenv = "*"
lazy_static = "*"
