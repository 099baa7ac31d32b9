[package]
name = "xxh3_hasher"
version = "0.1.0"
edition = "2021"
publish = false

[dependencies]
xxhash-rust = { version = "0.8", features = ["xxh3", "const_xxh3"] }
size-of = "0.1"
