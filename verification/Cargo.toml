[package]
name = "harfbuzz"
version = "0.1.0"
edition = "2021"
publish = false

[dependencies]
harfbuzz-sys = { version = "=0.8.0", default-features = false, features = ["bundled"] }
