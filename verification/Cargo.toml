[package]
name = "bridge_sol"
version = "0.1.0"
edition = "2021"
publish = false

[dependencies]
sha2 = "0.10"
secp256k1 = { version = "0.30", features = ["recovery"] }
anchor-lang = { version = "0.30.1", features = ["init-if-needed"] }
anchor-spl = { version = "0.30.1", default-features = false, features = ["token", "associated_token"] }
