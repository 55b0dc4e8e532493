[package]
name = "vedirect"
version = "0.1.0"
edition = "2021"
publish = false

[dependencies]
regex = "1"
semver = "0.9"
