[package]
name = "utopian"
version = "0.1.0"
edition = "2021"
publish = false

[dependencies]
ash = "=0.37.3"
vk-sync-fork = "=0.4.0"
gpu-allocator = { version = "=0.22.0", default-features = false, features = ["vulkan"] }
glam = "=0.25.0"
rspirv-reflect = "=0.8.0"
dolly = "=0.4.3"
log = "=0.4.35"
