[package]
name = "wgpu_triangle"
version = "0.1.0"
edition = "2021"
publish = false

[dependencies]
wgpu = "=0.16.3"
winit = "=0.28.7"
pollster = "=0.3.0"
image = { version = "=0.24.9", default-features = false }
conrod_core = "=0.76.1"
