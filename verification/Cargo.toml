[package]
name = "libaec"
version = "0.1.0"
edition = "2021"
publish = false

[dependencies]
bitflags = "1"
libc = "0.2"
