[package]
name = "chip8"
version = "0.1.0"
edition = "2021"
publish = false

[dependencies]
macroquad = { version = "0.3", default-features = false }
lazy_static = "1"
sapp-jsutils = "0.1"
