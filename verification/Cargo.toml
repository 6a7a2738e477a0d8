[package]
name = "favorites"
version = "0.1.0"
edition = "2021"
publish = false

[dependencies]
anchor-lang = "0.31.1"
bs58 = "0.5"
dotenv = "0.15"
mpl-token-metadata = "5.1"
solana-sdk = "2.2"
spl-associated-token-account = "6.0"
spl-token = "7.0"
