[package]
name = "frame_bridge"
version = "0.1.0"
edition = "2021"
publish = false

[dependencies]
bevy = { version = "=0.13.2", default-features = false }
wgpu = { version = "=0.19.4", default-features = false, features = ["wgsl"] }
