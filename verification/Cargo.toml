[package]
name = "pumpfun"
version = "0.1.0"
edition = "2021"
publish = false

[dependencies]
solana-sdk = "=2.0.25"

[dev-dependencies]
pumpfun-cpi = "=2.0.1"
anchor-lang = "=0.30.1"
spl-associated-token-account = "=5.0.1"
