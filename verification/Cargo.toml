[package]
name = "subframe_rs"
version = "0.1.0"
edition = "2021"
publish = false

[dependencies]
substrait = { version = "=0.65.0", features = ["protox"] }
