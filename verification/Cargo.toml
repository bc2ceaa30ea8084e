[package]
name = "schwarz_engine"
version = "0.1.0"
edition = "2021"
publish = false

[dependencies]
glam = "0.24"
pollster = "0.3"
tobj = "4"
wgpu = "0.15"
winit = "0.28"
