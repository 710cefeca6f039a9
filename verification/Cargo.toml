[package]
name = "aucpace"
version = "0.1.0"
edition = "2021"
publish = false

[dependencies]
curve25519-dalek = { version = "4.1", features = ["digest", "zeroize"] }
sha2 = "0.10"
password-hash = "0.5"
rand_core = "0.9"
serde = "1"
zeroize = "1"
