[package]
name = "scopelint"
version = "0.1.0"
edition = "2021"
publish = false

[dependencies]
colored = "2"
regex-syntax = { version = "0.8", features = ["unicode-perl"] }
solang-parser = "0.2"
taplo = "*"
walkdir = "2"

[dev-dependencies]
regex = "1"
