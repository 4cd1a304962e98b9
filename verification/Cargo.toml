[package]
name = "loki"
version = "0.1.0"
edition = "2021"
publish = false

[dependencies]
toml = "*"
xxhash-rust = { version = "*", features = ["xxh3"] }
walkdir = "*"
