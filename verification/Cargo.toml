[package]
name = "vulkan_renderer"
version = "0.1.0"
edition = "2021"
publish = false

[dependencies]
ash = { version = "=0.37.3", features = ["linked"] }
ash-window = "0.12"
winit = "0.27"
glam = "=0.20.5"
raw-window-handle = "0.5"
