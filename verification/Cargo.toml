[package]
name = "prospect"
version = "0.1.0"
edition = "2021"
publish = false

[dependencies]
wgpu = "=0.16.3"
winit = "=0.28.7"
pollster = "=0.3.0"
bytemuck = "1"
log = "0.4"
env_logger = "=0.10.2"

[dependencies.image]
version = "=0.24.9"
default-features = false
features = ["png", "jpeg"]
