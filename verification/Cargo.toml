[package]
name = "rentshare"
version = "0.1.0"
edition = "2021"

[dependencies]
borsh = "1"
solana-program = "1.18"
