[package]
name = "deep_clone"
version = "0.1.0"
edition = "2021"
publish = false

[dependencies]
syn = "=2.0.119"
quote = "=1.0.47"
