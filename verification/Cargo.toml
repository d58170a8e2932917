[package]
name = "frameloop"
version = "0.1.0"
edition = "2021"
publish = false

[dependencies]
anyhow = "=1.0.104"
lazy_static = "=1.5.1"
log = "=0.4.34"
nalgebra-glm = "=0.21.0"
pretty_env_logger = "=0.5.0"
vulkanalia = { version = "=0.22.0", features = ["libloading", "window"] }
winit = { version = "=0.28.7", default-features = false, features = ["x11"] }
