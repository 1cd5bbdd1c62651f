[package]
name = "pedersen_preimage"
version = "0.1.0"
edition = "2021"
publish = false

[dependencies]
bellman_ce = "0.3"
sapling-crypto_ce = "0.1"
rand = "0.4"
