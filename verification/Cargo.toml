[package]
name = "framesync"
version = "0.1.0"
edition = "2021"
publish = false

[dependencies]
anyhow = "1"
lazy_static = "1"
log = "0.4"
nalgebra-glm = "0.18"
pretty_env_logger = "0.5"
vulkanalia = { version = "0.21", features = ["libloading", "window"] }
winit = { version = "0.28", default-features = false, features = ["x11"] }
