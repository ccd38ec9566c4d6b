[package]
name = "btmgmt"
version = "0.1.0"
edition = "2021"
publish = false

[dependencies]
hex = "0.4"
libc = "0.2"
