[package]
name = "fuji_engine"
version = "0.1.0"
edition = "2021"
publish = false

[dependencies]
image = "*"
wgpu = "*"
winit = "*"
pollster = "*"
anyhow = "*"
bytemuck = "*"
