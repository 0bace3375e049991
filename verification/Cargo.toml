[package]
name = "lumenpyx"
version = "0.1.0"
edition = "2021"
publish = false

[dependencies]
rustc-hash = "*"
glium = "=0.34.0"
winit = "=0.29.15"
image = "=0.24.9"
