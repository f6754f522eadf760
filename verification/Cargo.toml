[package]
name = "overlay_ui"
version = "0.1.0"
edition = "2021"
publish = false

[dependencies]
bytemuck = { version = "1", features = ["derive"] }
egui-wgpu = "0.31"
glyphon = "0.8"
image = { version = "0.25", default-features = false, features = ["png"] }
pollster = "0.4"
winit = "0.30"
