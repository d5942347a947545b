[package]
name = "ggez_3d"
version = "0.1.0"
edition = "2021"
publish = false

[dependencies]
bytemuck = { version = "1", features = ["derive"] }
ggez = { version = "0.9", default-features = false }
glam = { version = "0.24", features = ["mint"] }
mint = "0.5"
wgpu = "0.16"
