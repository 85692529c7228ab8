[package]
name = "window_bridge"
version = "0.1.0"
edition = "2021"
publish = false

[dependencies]
image = "0.24"
raw-window-handle = "0.5"
winit = { version = "0.29", features = ["rwh_05"] }
