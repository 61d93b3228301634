[package]
name = "crypto_pair_boundary"
version = "0.1.0"
edition = "2021"
publish = false

[dependencies]
crypto-pair = "*"
crypto-market-type = "*"
