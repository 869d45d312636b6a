[package]
name = "arti"
version = "0.1.0"
edition = "2021"
publish = false

[dependencies]
bytes = "1"
sha2 = "0.10"
hashx = "*"
asynchronous-codec = "*"
