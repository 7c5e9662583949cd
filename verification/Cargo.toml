[package]
name = "vokselis"
version = "0.1.0"
edition = "2021"
publish = false

[dependencies]
bytemuck = { version = "=1.25.2", features = ["derive"] }
env_logger = { version = "=0.10.2", default-features = false }
pollster = "=0.3.0"
winit = { version = "=0.29.15", default-features = false, features = ["rwh_05", "x11"] }
