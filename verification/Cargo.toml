[package]
name = "star_render"
version = "0.1.0"
edition = "2021"
publish = false

[dependencies]
rand = "0.8"
bytemuck = { version = "1", features = ["derive"] }
pollster = "0.3"
wgpu = "24"
winit = "0.30"
