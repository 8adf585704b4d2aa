[package]
name = "gyo_core"
version = "0.1.0"
edition = "2021"
publish = false

[dependencies]
anyhow = "1"
bincode = "1.3"
bytemuck = { version = "1", features = ["derive"] }
wgpu = "22"
winit = "0.30"
zstd = "0.13"
