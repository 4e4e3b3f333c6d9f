[package]
name = "heart"
version = "0.1.0"
edition = "2021"
publish = false

[dependencies]
crossbeam = "0.8"
png = "0.17"
wgpu = "24"
winit = "0.30"
zerocopy = { version = "0.8", features = ["derive"] }
