[package]
name = "sharedlock_rs"
version = "0.1.0"
edition = "2021"
publish = false

[dependencies]
thread-id = "*"
libc = "*"
