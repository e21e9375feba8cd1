[package]
name = "gpu_hand_in"
version = "0.1.0"
edition = "2021"
publish = false

[dependencies]
wgpu = "0.16"
bytemuck = "1"
pollster = "0.3"
