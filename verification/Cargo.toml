[package]
name = "dns_message"
version = "0.1.0"
edition = "2021"
publish = false

[dependencies]
pretty-hex = "*"
