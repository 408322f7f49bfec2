[package]
name = "userdata"
version = "0.1.0"
edition = "2021"
publish = false

[dependencies]
hv-alchemy = "*"
hv-cell = "*"
hv-elastic = "*"
hv-guarded-borrow = "*"
serde = "*"
erased-serde = "*"
