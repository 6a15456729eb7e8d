[package]
name = "pallet_voting"
version = "0.1.0"
edition = "2021"
publish = false

[dependencies]
frame-support = "=49.0.0"
frame-system = "=49.0.0"
parity-scale-codec = { version = "=3.7.5", features = ["derive", "max-encoded-len"] }
scale-info = { version = "=2.11.6", features = ["derive"] }
strum = { version = "=0.28.0", features = ["derive"] }
strum_macros = "=0.28.0"

[dev-dependencies]
sp-crypto-hashing = "=0.1.0"
