[package]
name = "secretbox"
version = "0.1.0"
edition = "2021"
publish = false

[dependencies]
salsa20 = "*"
poly1305 = "*"
subtle = "*"
zeroize = "*"
generic-array = "*"
rand_core = { version = "0.6", features = ["getrandom"] }
