[package]
name = "re_renderer"
version = "0.1.0"
edition = "2021"
publish = false

[dependencies]
bytemuck = { version = "=1.25.2", features = ["min_const_generics"] }
glam = "=0.34.2"
smallvec = "=1.16.4"
wgpu = { version = "=30.0.1", default-features = false, features = ["std", "wgsl", "noop"] }

[dev-dependencies]
pollster = "=1.0.1"
