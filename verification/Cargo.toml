[package]
name = "morrigu"
version = "0.1.0"
edition = "2021"
publish = false

[dependencies]
ash = "=0.38.0"
ash-window = "=0.13.0"
raw-window-handle = "=0.6.2"
winit = { version = "=0.30.13", default-features = false, features = ["x11", "rwh_06"] }
winit_input_helper = "=0.17.0"
gpu-allocator = { version = "=0.27.0", default-features = false, features = ["vulkan"] }
bevy_ecs = { version = "=0.14.2", default-features = false }
egui = "=0.29.1"
egui-winit = { version = "=0.29.1", default-features = false }
glam = { version = "=0.29.3", features = ["bytemuck", "scalar-math"] }
bytemuck = "=1.25.2"
thiserror = "=1.0.69"
log = "=0.4.35"
spirv-reflect = "=0.2.3"
image = { version = "=0.25.10", default-features = false, features = ["png"] }
tobj = "=4.0.5"
ply-rs = "=0.1.3"
memoffset = "=0.9.1"
profiling = "=1.0.18"
clap = { version = "=4.6.7", features = ["derive"] }
