[package]
name = "surface_loop"
version = "0.1.0"
edition = "2021"
publish = false

[dependencies]
wgpu = { version = "0.19", default-features = false }
env_logger = "0.10"
log = "0.4"
pollster = "0.3"
