[package]
name = "wgpu_helpers"
version = "0.1.0"
edition = "2021"
publish = false

[dependencies]
wgpu = "23"
winit = "0.30"
