[package]
name = "has_fields"
version = "0.1.0"
edition = "2021"
publish = false

[dependencies]
syn = { version = "1", features = ["full"] }
quote = "1"
