[package]
name = "usdv_bridge"
version = "0.1.0"
edition = "2021"
publish = false

[dependencies]
anchor-lang = { version = "0.30.1", features = ["init-if-needed"] }
anchor-spl = { version = "0.30.1", default-features = false, features = ["token", "token_2022"] }
borsh = "0.10"
wormhole-anchor-sdk = "0.30.1-alpha.3"
