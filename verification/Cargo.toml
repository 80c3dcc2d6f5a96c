[package]
name = "render_core"
version = "0.1.0"
edition = "2021"
publish = false

[dependencies]
cgmath = "=0.18.0"
image = { version = "=0.22.5", default-features = false, features = ["png_codec"] }
miniquad = "=0.2.55"
miniquad_text_rusttype = "=0.1.2"
