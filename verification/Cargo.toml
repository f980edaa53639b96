[package]
name = "render_vulkan"
version = "0.1.0"
edition = "2021"
publish = false

[dependencies]
anyhow = "1"
ash = "0.38"
ash-window = "0.13"
bytemuck = "1"
glam = "*"
gpu-allocator = "*"
indicatif = "*"
offset-allocator = "*"
parking_lot = "0.12"
raw-window-handle = "0.6"
rayon = "1"
sdl3 = { version = "*", features = ["raw-window-handle"] }
