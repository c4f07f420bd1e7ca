[package]
name = "pvss"
version = "0.1.0"
edition = "2021"
publish = false

[dependencies]
ark-bls12-381 = "0.3"
ark-ec = "0.3"
ark-ff = "0.3"
ark-serialize = "0.3"
ark-std = "0.3"
base64 = "0.13"
ed25519-dalek = "1"
rand = "0.8"
sha3 = "0.9"
