[package]
name = "renderloop"
version = "0.1.0"
edition = "2021"
publish = false

[dependencies]
calloop = "=0.14.5"
env_logger = "=0.11.11"
pollster = "=1.0.1"
raw-window-handle = "=0.6.2"
smithay-client-toolkit = { version = "=0.21.1", default-features = false, features = ["calloop"] }
wayland-backend = { version = "=0.3.17", features = ["client_system", "dlopen"] }
wayland-client = "=0.31.15"
wgpu = "=30.0.1"
