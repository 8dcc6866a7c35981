[package]
name = "microps_rs"
version = "0.1.0"
edition = "2021"
publish = false

[dependencies]
rand = "0.8"
libc = "0.2"
signal-hook = "0.3"
