[package]
name = "ketupa_demo_engine"
version = "0.1.0"
edition = "2021"
publish = false

[dependencies]
bytemuck = "1"
env_logger = "0.9"
glam = { version = "0.20", features = ["bytemuck"] }
lyon_tessellation = "0.17"
pollster = "0.2"
wgpu = "0.12"
winit = "0.26"
