[package]
name = "md_wgpu"
version = "0.1.0"
edition = "2021"
publish = false

[dependencies]
bytemuck = "=1.25.2"
cgmath = "=0.18.0"
futures = "=0.3.34"
pollster = "=1.0.1"
stretch = "=0.3.2"
wgpu = "=28.0.0"
wgpu_glyph = "=0.28.0"
wgpu-subscriber = "=0.1.0"
winit = "=0.30.13"
