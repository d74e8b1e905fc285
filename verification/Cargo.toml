[package]
name = "frost_dkg"
version = "0.1.0"
edition = "2021"
publish = false

[dependencies]
k256 = { version = "=0.13.4", features = ["arithmetic", "hash2curve"] }
elliptic-curve = { version = "=0.13.8", features = ["hash2curve"] }
vsss-rs = "=5.4.0"
merlin = "=3.0.0"
sha2 = "=0.10.9"
rand_core = { version = "=0.6.4", features = ["getrandom"] }
