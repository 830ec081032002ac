[package]
name = "btc_vanity"
version = "0.1.0"
edition = "2021"
publish = false

[dependencies]
bitcoin = { version = "=0.32.102", features = ["rand-std"] }
clap = "=4.6.7"
hex = "=0.4.3"
memx = "=0.2.2"
rand = "=0.10.3"
regex = "=1.13.1"
secp256k1 = { version = "=0.33.1", features = ["rand", "std"] }
sha3 = "=0.12.0"
solana-sdk = "=5.0.0"
thiserror = "=2.0.21"

[dev-dependencies]
bs58 = "=0.5.1"
