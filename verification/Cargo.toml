[package]
name = "lp55231"
version = "0.1.0"
edition = "2021"
publish = false

[dependencies]
linux-embedded-hal = "*"
scopeguard = "*"
