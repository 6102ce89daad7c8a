[package]
name = "rinch"
version = "0.1.0"
edition = "2021"
publish = false

[dependencies]
anyrender_vello = "*"
peniko = "*"
pollster = "*"
tracing = "*"
vello = "*"
wgpu = "*"
winit = "*"
