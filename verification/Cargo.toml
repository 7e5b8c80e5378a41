[package]
name = "nft_mint"
version = "0.1.0"
edition = "2021"
publish = false

[dependencies]
borsh = "=0.9.3"
mpl-token-metadata = { version = "=1.2.5", features = ["no-entrypoint"] }
solana-program = ">=1.9.29, <1.11"
spl-associated-token-account = { version = "=1.0.5", features = ["no-entrypoint"] }
spl-token = { version = "~3.3", features = ["no-entrypoint"] }
