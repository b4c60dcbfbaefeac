[package]
name = "oracle_canister"
version = "0.1.0"
edition = "2021"
publish = false

[dependencies]
anyhow = "=1.0.104"
candid = "=0.10.39"
clap = { version = "=4.6.7", features = ["derive"] }
ethers-core = "=2.0.14"
hex = "=0.4.3"
ic-agent = "=0.49.3"
ic-stable-structures = "=0.7.2"
rand = "=0.8.8"
rlp = "=0.5.2"
serde = { version = "=1.0.229", features = ["derive"] }
serde_json = "=1.0.154"
tokio = { version = "=1.54.1", features = ["macros", "rt-multi-thread"] }
