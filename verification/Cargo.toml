[package]
name = "popmax"
version = "0.1.0"
edition = "2021"
publish = false

[dependencies]
rand = "*"
rand_xoshiro = "*"
rayon = "*"
num-format = "*"

[dev-dependencies]
wyrand = "*"
