[package]
name = "solana-poker"
version = "0.1.0"
edition = "2021"
publish = false

[dependencies]
anchor-lang = "=0.31.2"
inco-lightning = { version = "=0.1.4", features = ["cpi"] }
