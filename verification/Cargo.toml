[package]
name = "maxminddb"
version = "0.1.0"
edition = "2021"
publish = false

[dependencies]
memchr = "*"
tokio = { version = "*", features = ["rt", "fs", "io-util", "macros"] }
