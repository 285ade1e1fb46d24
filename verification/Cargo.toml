[package]
name = "oneapi-rs"
version = "0.1.0"
edition = "2021"
publish = false

[dependencies]
anyhow = "1"
bindgen = "*"
clap = { version = "4", features = ["derive"] }
