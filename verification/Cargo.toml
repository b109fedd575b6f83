[package]
name = "confidential_ballot"
version = "0.1.0"
edition = "2021"
publish = false

[dependencies]
bulletproofs = { version = "=4.0.0", default-features = false, features = ["std"] }
curve25519-dalek-ng = { version = "=4.1.1", default-features = false, features = ["std", "u64_backend"] }
merlin = "=3.0.0"
rand = "=0.8.8"
rand_chacha = "=0.3.1"
sha2 = "=0.10.9"
frame-support = "=49.0.0"
frame-system = "=49.0.0"
sp-runtime = "=49.0.0"
parity-scale-codec = { version = "=3.7.5", features = ["derive"] }
scale-info = { version = "=2.11.6", features = ["derive"] }
serde = { version = "=1.0.229", features = ["derive"] }
