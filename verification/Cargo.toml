[package]
name = "sierra_toolchain"
version = "0.1.0"
edition = "2021"
publish = false

[dependencies]
cairo-lang-sierra = "*"
cairo-lang-sierra-to-casm = "*"
cairo-lang-sierra-type-size = "*"
serde_json = "*"
clap = { version = "*", features = ["derive"] }
