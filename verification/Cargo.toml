[package]
name = "curl"
version = "0.1.0"
edition = "2021"
publish = false

[dependencies]
curl-sys = { version = "0.4", default-features = false }
