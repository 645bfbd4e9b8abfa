[package]
name = "shaderpixel"
version = "0.1.0"
edition = "2021"
publish = false

[dependencies]
glslang = "*"
ash = "*"
ash-window = "*"
raw-window-handle = "*"
winit = "*"
image = "*"
notify = "*"
notify-debouncer-full = "*"
anyhow = "*"
log = "*"
env_logger = "*"
