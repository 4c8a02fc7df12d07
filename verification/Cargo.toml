[package]
name = "skel_rust"
version = "0.1.0"
edition = "2021"
publish = false

[dependencies]
libc = "*"
