[package]
name = "nft_service"
version = "0.1.0"
edition = "2021"
publish = false

[dependencies]
json = "=0.12.4"
log = "=0.4.34"
marine-rs-sdk = { version = "0.6", features = ["logger"] }
fluence = "0.6.9"
