[package]
name = "wayoa"
version = "0.1.0"
edition = "2021"
publish = false

[dependencies]
anyhow = "1"
calloop = "0.14"
env_logger = "0.11"
log = "0.4"
memmap2 = "0.9"
objc2 = "0.6"
objc2-app-kit = "0.3"
objc2-foundation = "0.3"
objc2-metal = "0.3"
objc2-quartz-core = "0.3"
thiserror = "1"
wayland-protocols = { version = "0.32", features = ["server"] }
wayland-server = "0.31"
