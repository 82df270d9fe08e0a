[package]
name = "typed_gpu"
version = "0.1.0"
edition = "2021"
publish = false

[dependencies]
bytemuck = { version = "1", features = ["derive"] }
image = { version = "0.24", default-features = false, features = ["png", "jpeg", "bmp"] }
log = "0.4"
naga = { version = "0.12", features = ["glsl-in", "wgsl-in"] }
wgpu = { version = "0.16", features = ["naga"] }
winit = "0.28"
