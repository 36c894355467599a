[package]
name = "render_core"
version = "0.1.0"
edition = "2021"
publish = false

[dependencies]
anyhow = "*"
bytemuck = { version = "*", features = ["derive"] }
glam = "*"
image = "*"
tobj = { version = "*", features = ["async"] }
wgpu = "*"
winit = "*"
