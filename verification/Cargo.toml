[package]
name = "vrf_poker"
version = "0.1.0"
edition = "2021"
publish = false

[dependencies]
merlin = "3"
rand = "0.8"
rand_core = { version = "0.6", features = ["getrandom"] }
schnorrkel = "0.11"
sha2 = "0.10"
