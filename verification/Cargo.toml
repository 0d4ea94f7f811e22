[package]
name = "pixen"
version = "0.1.0"
edition = "2021"
publish = false

[dependencies]
env_logger = "0.10"
error-iter = "0.4"
image = { version = "0.24", default-features = false, features = ["png"] }
log = "0.4"
pixels = "0.13"
winit = "0.28"
winit_input_helper = "0.14"
