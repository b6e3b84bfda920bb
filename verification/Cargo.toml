[package]
name = "dynlint"
version = "0.1.0"
edition = "2021"
publish = false

[dependencies]
anyhow = "1"
cargo_metadata = "0.18"
dirs = "5"
semver = "1"
tempfile = "3"
