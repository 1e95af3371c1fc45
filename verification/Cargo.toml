[package]
name = "kindling_core"
version = "0.1.0"
edition = "2021"
publish = false

[dependencies]
byteorder = "*"
chrono = "*"
libc = "*"
serde = "*"
serde_derive = "*"
