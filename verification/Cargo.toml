[package]
name = "tap_parser"
version = "0.1.0"
edition = "2021"
publish = false

[dependencies]
term = "*"

[dev-dependencies]
regex = "1"
