[package]
name = "gpiod"
version = "0.1.0"
edition = "2021"
publish = false

[dependencies]
nix = { version = "*", features = ["ioctl"] }
tokio = { version = "1", features = ["fs", "io-util"] }
async-std = "1"
