[package]
name = "voxel_runtime"
version = "0.1.0"
edition = "2021"
publish = false

[dependencies]
instant = "=0.1.13"
winit = "=0.30.13"
wgpu = { version = "=25.0.2", default-features = false }
pollster = "=1.0.1"
anyhow = "=1.0.104"
log = "=0.4.34"
env_logger = "=0.11.11"
