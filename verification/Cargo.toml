[package]
name = "gui_rs"
version = "0.1.0"
edition = "2021"
publish = false

[dependencies]
uuid = { version = "*", features = ["v4"] }
wgpu = "0.12"
winit = "0.26"
pollster = "0.2"
env_logger = "0.9"
