[package]
name = "raypipe"
version = "0.1.0"
edition = "2021"
publish = false

[dependencies]
wgpu = "0.14"
winit = "0.27"
pollster = "0.2"
env_logger = "0.9"
