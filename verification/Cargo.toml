[package]
name = "sdf_visualizer"
version = "0.1.0"
edition = "2021"
publish = false

[dependencies]
glam = { version = "0.30", features = ["bytemuck"] }
bytemuck = { version = "1", features = ["derive"] }
wgpu = "25"
winit = "0.30"
egui = "0.32"
egui-wgpu = "0.32"
egui-winit = "0.32"
pollster = "0.4"
log = "0.4"
bumpalo = "3"
exp-rs = "*"
