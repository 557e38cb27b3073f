[package]
name = "friz"
version = "0.1.0"
edition = "2021"
publish = false

[dependencies]
mio = { version = "*", features = ["os-poll"] }
libc = "*"
