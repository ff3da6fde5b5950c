[package]
name = "cargo_cpy_run"
version = "0.1.0"
edition = "2021"
publish = false

[dependencies]
anyhow = "=1.0.104"
bytesize = "2"
clap = "=2.34.0"
