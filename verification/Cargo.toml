[package]
name = "render_harness"
version = "0.1.0"
edition = "2021"
publish = false

[dependencies]
anyhow = "1"
bytemuck = { version = "1", features = ["derive"] }
egui = { version = "=0.22.0", default-features = false }
egui-wgpu = { version = "=0.22.0", default-features = false }
egui-winit = { version = "=0.22.0", default-features = false }
env_logger = { version = "=0.10.2", default-features = false }
log = "0.4"
pollster = "=0.3.0"
tobj = { version = "=3.2.5", default-features = false }
ultraviolet = "=0.9.2"
wgpu = { version = "=0.16.3", default-features = false }
winit = { version = "=0.28.7", default-features = false, features = ["x11"] }
