[package]
name = "w5500-hl"
version = "0.1.0"
edition = "2021"
publish = false

[dependencies]
w5500-ll = "*"
