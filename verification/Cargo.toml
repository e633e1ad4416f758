[package]
name = "xargo_lib"
version = "0.1.0"
edition = "2021"
publish = false

[dependencies]
serde_json = "*"
cargo_metadata = "*"
rustc_version = "*"
fs2 = "*"
tempdir = "*"
walkdir = "*"
toml = "*"
