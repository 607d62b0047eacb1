[package]
name = "bip21"
version = "0.1.0"
edition = "2021"
publish = false

[dependencies]
bitcoin = "0.32"
percent-encoding-rfc3986 = "0.1"
