[package]
name = "glyph_draw"
version = "0.1.0"
edition = "2021"
publish = false

[dependencies]
image = { version = "0.23", default-features = false }
rusttype = "0.9"
conv = "0.3"
