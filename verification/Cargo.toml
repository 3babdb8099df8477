[package]
name = "bls_verifier"
version = "0.1.0"
edition = "2021"
publish = false

[dependencies]
bls12_381 = { version = "=0.8.0", features = ["experimental"] }
pairing = "=0.23.0"
ruint = { version = "=1.10.1", default-features = false }
sha2 = "=0.9.9"
stylus-sdk = "=0.4.3"
wee_alloc = "=0.4.5"
