[package]
name = "render_core"
version = "0.1.0"
edition = "2021"
publish = false

[dependencies]
anyhow = "1"
bytemuck = { version = "1", features = ["derive"] }
gltf = "=1.4.1"
nalgebra = "=0.33.3"
palette = "=0.7.7"
tracing = "0.1"
tracing-subscriber = "0.3"
vulkano = "=0.34.2"
winit = { version = "=0.29.15", features = ["rwh_05"] }
