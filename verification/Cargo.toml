[package]
name = "tor_v3_vanity"
version = "0.1.0"
edition = "2021"
publish = false

[dependencies]
anyhow = "1"
base32 = "0.4"
byteorder = "1"
clap = { version = "4", features = ["derive"] }
crossbeam-channel = "0.5"
curve25519-dalek = "3"
ed25519-compact = "2"
ed25519-dalek = "1"
rand = "0.8"
rustacuda = "0.1"
sha3 = "0.10"

[dev-dependencies]
sha2 = "0.10"
