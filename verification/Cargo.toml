[package]
name = "jurl"
version = "0.1.0"
edition = "2021"

[dependencies]
base64 = "0.13"
rust-lzma = "*"
serde = "1"
serde_json = "1"
