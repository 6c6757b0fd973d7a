[package]
name = "compositor_backend"
version = "0.1.0"
edition = "2021"
publish = false

[dependencies]
wgpu = { version = "=30.0.1", features = ["noop"] }
bytemuck = { version = "=1.25.2", features = ["derive"] }

[dev-dependencies]
pollster = "*"
