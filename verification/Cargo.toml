[package]
name = "game"
version = "0.1.0"
edition = "2021"
publish = false

[dependencies]
winit = "0.28"
wgpu = "0.16"
cgmath = "0.18"
bytemuck = { version = "1", features = ["derive"] }
image = { version = "0.24", default-features = false, features = ["png", "jpeg"] }
tobj = "4"
futures = "0.3"
