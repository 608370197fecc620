[package]
name = "y_engine"
version = "0.1.0"
edition = "2021"
publish = false

[dependencies]
crossbeam = "0.8"
image = { version = "0.25", default-features = false, features = ["png"] }
pollster = "*"
rustc-hash = "2"
softbuffer = "0.4"
wgpu = "24"
winit = "0.30"
