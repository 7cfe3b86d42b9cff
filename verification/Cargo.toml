[package]
name = "scatter"
version = "0.1.0"
edition = "2021"
publish = false

[dependencies]
bytemuck = { version = "1", features = ["derive"] }
chrono = "=0.4.45"
include_dir = "=0.7.4"
objc2 = "0.6"
objc2-foundation = "0.3"
pollster = "0.4"
raw-window-handle = "0.6"
raw-window-metal = "1"
serde = { version = "1", features = ["derive"] }
toml = "1"
wgpu = "29"
winit = "=0.30.13"
