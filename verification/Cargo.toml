[package]
name = "orbit_scene"
version = "0.1.0"
edition = "2021"
publish = false

[dependencies]
cgmath = "0.18"
bytemuck = { version = "1", features = ["derive"] }
wgpu = "0.15"
winit = { version = "0.27", default-features = false, features = ["x11"] }
pollster = "0.3"
