[package]
name = "jpeudex"
version = "0.1.0"
edition = "2021"

[dependencies]
jp_utils = { version = "=0.1.7", features = ["hiragana"] }
serde = { version = "=1.0.229", features = ["derive"] }
