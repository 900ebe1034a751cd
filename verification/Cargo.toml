[package]
name = "voting"
version = "0.1.0"
edition = "2021"
publish = false

[dependencies]
anchor-lang = "=0.31.2"

[dev-dependencies]
sha2 = "=0.10.9"
