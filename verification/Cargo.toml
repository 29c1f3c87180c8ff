[package]
name = "pong_rl"
version = "0.1.0"
edition = "2021"
publish = false

[dependencies]
rand = "0.8"
pixels = "0.13"
winit = "0.28"
pyo3 = "0.20"
numpy = "0.20"
