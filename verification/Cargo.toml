[package]
name = "name-to-handle-at"
version = "0.1.0"
edition = "2021"
publish = false

[dependencies]
libc = "0.2"
