[package]
name = "pallet-supersig"
version = "0.1.0"
edition = "2021"
publish = false

[dependencies]
parity-scale-codec = "*"
scale-info = "*"
sp-core = "*"
sp-runtime = "*"
sp-std = "*"
frame-support = "*"
frame-system = "*"
