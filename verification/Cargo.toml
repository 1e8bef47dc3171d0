[package]
name = "chromatic"
version = "0.1.0"
edition = "2021"
publish = false

[dependencies]
env_logger = "0.10"
image = "0.24"
pixels = "0.13"
rand = "0.8"
winit = "0.28"
