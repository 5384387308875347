[package]
name = "surface_registry"
version = "0.1.0"
edition = "2021"
publish = false

[dependencies]
log = "=0.4.35"
wgpu = { version = "=30.0.1", default-features = false, features = ["std", "noop"] }

[dev-dependencies]
pollster = "=1.0.1"
