[package]
name = "overlay_core"
version = "0.1.0"
edition = "2021"
publish = false

[dependencies]
glium = "=0.34.0"
glutin = "=0.31.3"
glutin-winit = "=0.4.2"
raw-window-handle = "=0.5.2"
winit = "=0.29.15"
