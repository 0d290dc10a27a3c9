[package]
name = "full_viewport"
version = "0.1.0"
edition = "2021"
publish = false

[dependencies]
bevy = { version = "=0.9.1", default-features = false }
gloo-events = "=0.1.2"
web-sys = { version = "0.3", features = ["Window"] }
