[package]
name = "render_headless"
version = "0.1.0"
edition = "2021"
publish = false

[dependencies]
crossbeam-channel = "0.5"
image = { version = "0.24", default-features = false }
