[package]
name = "mhde"
version = "0.1.0"
edition = "2021"
publish = false

[dependencies]
argparse = "0.2"
burn = { version = "0.16", default-features = false, features = ["std", "ndarray", "autodiff"] }
linfa-nn = "0.7"
ndarray = "0.15"
rand = "0.8"
rand_chacha = "0.3"
rand_core = { version = "0.6", features = ["getrandom"] }
statrs = "0.17"
