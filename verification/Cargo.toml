[package]
name = "poseidon_hash"
version = "0.1.0"
edition = "2021"
publish = false

[dependencies]
pasta_curves = "=0.4.1"
