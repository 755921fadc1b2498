[package]
name = "resolution"
version = "0.1.0"
edition = "2021"
publish = false

[dependencies]
rust_decimal = "1"
csv = "1"
clap = "2"
serde = { version = "1", features = ["derive"] }
