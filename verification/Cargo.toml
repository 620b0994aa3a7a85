[package]
name = "networkframework"
version = "0.1.0"
edition = "2021"
publish = false

[dependencies]
zeroize = "1"
apple-cf = "*"
doom-fish-utils = "*"
