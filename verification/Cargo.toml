[package]
name = "gramine_cli"
version = "0.1.0"
edition = "2021"
publish = false

[dependencies]
clap = { version = "4", features = ["derive"] }
encoding = "*"
lazy_static = "1"
openssl = "0.10"
