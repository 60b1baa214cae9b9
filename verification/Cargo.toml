[package]
name = "poseidon_params"
version = "0.1.0"
edition = "2021"
publish = false

[dependencies]
neptune = "*"
blstrs = "*"
generic-array = "*"
lazy_static = "*"
