[package]
name = "simple-vault"
version = "0.1.0"
edition = "2021"
publish = false

[dependencies]
anchor-lang = "0.26.0"
anchor-spl = "0.26.0"
