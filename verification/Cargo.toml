[package]
name = "vulkan_render"
version = "0.1.0"
edition = "2021"
publish = false

[dependencies]
anyhow = "1"
cgmath = "0.18"
log = "0.4"
vulkanalia = { version = "*", features = ["libloading", "window"] }
vulkanalia-vma = "*"
winit = { version = "0.30", default-features = false, features = ["rwh_06", "x11"] }
