[package]
name = "membership"
version = "0.1.0"
edition = "2021"
publish = false

[dependencies]
keygen-rs = "=0.4.3"
sha2 = "=0.10.9"
