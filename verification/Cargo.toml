[package]
name = "render_support"
version = "0.1.0"
edition = "2021"
publish = false

[dependencies]
anyhow = "1"
ash = "0.31"
image = { version = "0.23", default-features = false, features = ["png", "jpeg", "hdr"] }
log = "0.4"
nalgebra-glm = "0.8"
raw-window-handle = "0.3"
simplelog = "0.8"
vk-mem = "0.2"
winit = "0.22"
