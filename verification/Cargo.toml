[package]
name = "minibrowser"
version = "0.1.0"
edition = "2021"
publish = false

[dependencies]
egui = "0.22"
egui_glow = { version = "0.22", features = ["winit"] }
egui-winit = { version = "0.22", default-features = false }
euclid = "0.22"
gleam = "0.15"
glow = "0.12"
log = "0.4"
winit = "0.28"
