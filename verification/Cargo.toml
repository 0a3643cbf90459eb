[package]
name = "exgui"
version = "0.1.0"
edition = "2021"
publish = false

[dependencies]
nanovg = { version = "=1.0.2", features = ["gl3"] }
