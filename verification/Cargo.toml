[package]
name = "frame_presenter"
version = "0.1.0"
edition = "2021"
publish = false

[dependencies]
cgmath = "=0.17.0"
vk-sys = "=0.5.1"
vulkano = "=0.18.0"
vulkano-shaders = "=0.18.0"
vulkano-win = "=0.18.0"
winit = "=0.22.2"
