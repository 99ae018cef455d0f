[package]
name = "pallet-kitties"
version = "0.1.0"
edition = "2021"
publish = false

[dependencies]
sp-core = { version = "=43.0.0", default-features = false }
sp-crypto-hashing = { version = "=0.1.0", default-features = false }
parity-scale-codec = { version = "=3.7.5", features = ["derive"] }
scale-info = { version = "=2.11.6", features = ["derive"] }
serde = { version = "=1.0.229", features = ["derive"] }
