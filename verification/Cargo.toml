[package]
name = "pop_support"
version = "0.1.0"
edition = "2021"
publish = false

[dependencies]
anyhow = "*"
clap = { version = "*", features = ["derive"] }
dirs = "*"
futures = "*"
smol = "*"
tempfile = "*"
