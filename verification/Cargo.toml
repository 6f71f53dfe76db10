[package]
name = "quad_window"
version = "0.1.0"
edition = "2021"
publish = false

[dependencies]
wgpu = "=0.17.2"
winit = "=0.28.7"
bytemuck = "=1.25.2"
env_logger = "=0.10.2"
