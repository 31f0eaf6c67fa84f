[package]
name = "lumol"
version = "0.1.0"
edition = "2021"
publish = false

[dependencies]
toml = "*"
rand = "*"
rand_distr = "*"
special = "*"
