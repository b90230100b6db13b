[package]
name = "hotreload"
version = "0.1.0"
edition = "2021"
publish = false

[dependencies]
bytemuck = { version = "1", features = ["derive"] }
crossbeam-channel = "0.5"
env_logger = "0.8"
futures = "0.3"
image = { version = "0.23", default-features = false, features = ["png", "jpeg"] }
log = "0.4"
notify = "=5.0.0-pre.6"
rand = "0.8"
rand_hc = "0.3"
shaderc = "0.7"
ultraviolet = { version = "0.8", features = ["bytemuck"] }
wgpu = "0.7"
winit = "0.24"
