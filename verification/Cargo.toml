[package]
name = "poseidon_chain"
version = "0.1.0"
edition = "2021"
publish = false

[dependencies]
ziskos = "=1.3.1-alpha"

[dev-dependencies]
byteorder = "1"
