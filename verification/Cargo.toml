[package]
name = "pixel_param"
version = "0.1.0"
edition = "2021"
publish = false

[dependencies]
pairing-plus = "*"
bls_sigs_ref = "*"
hkdf = "0.7"
sha2 = "0.8"
