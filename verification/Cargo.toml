[package]
name = "credential_rotation"
version = "0.1.0"
edition = "2021"
publish = false

[dependencies]
anyhow = "1"
curve25519-dalek = "3"
digest = "0.9"
generic-array = "0.14"
opaque-ke = "0.6"
rand = "0.8"
rust-argon2 = "0.8"
sha2 = "0.9"
validator = "0.14"
