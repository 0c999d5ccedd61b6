[package]
name = "multi_gomoku"
version = "0.1.0"
edition = "2021"
publish = false

[dependencies]
parity-scale-codec = { version = "=1.3.7", features = ["derive"] }
sp-std = "=2.0.1"
sp-core = "=2.0.1"
sp-io = "=2.0.1"
sp-runtime = "=2.0.1"
frame-support = "=2.0.1"
frame-system = "=2.0.1"
frame-benchmarking = "=2.0.1"
substrate-bip39 = "=0.4.2"
syn = "=1.0.58"
