[package]
name = "decentralized_blog"
version = "0.1.0"
edition = "2021"
publish = false

[dependencies]
soroban-sdk = "*"
