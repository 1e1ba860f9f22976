[package]
name = "benet"
version = "0.1.0"
edition = "2021"
publish = false

[dependencies]
enet-sys = "*"
libc = "0.2"
