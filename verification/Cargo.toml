[package]
name = "group_core"
version = "0.1.0"
edition = "2021"
publish = false

[dependencies]
ark-bls12-381 = "=0.3.0"
ark-ec = "=0.3.0"
ark-ff = "=0.3.0"
ark-std = "=0.3.0"
rand = "=0.8.8"
rust-crypto = "=0.2.36"

[dev-dependencies]
sha2 = "=0.10.9"
