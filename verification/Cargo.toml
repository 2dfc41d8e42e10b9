[package]
name = "gui_shell"
version = "0.1.0"
edition = "2021"
publish = false

[dependencies]
egui = { version = "=0.27.2", default-features = false }
egui-winit = { version = "=0.27.2", default-features = false }
pollster = "=0.3.0"
winit = { version = "=0.29.15", default-features = false, features = ["x11", "rwh_06"] }
