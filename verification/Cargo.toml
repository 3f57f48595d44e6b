[package]
name = "egui_keyboard"
version = "0.1.0"
edition = "2021"
publish = false

[dependencies]
egui = { version = "0.33", default-features = false, features = ["default_fonts"] }
arboard = { version = "3", default-features = false }
eframe = { version = "0.33", default-features = false, features = ["glow", "default_fonts", "x11"] }
egui-winit = { version = "0.33", default-features = false }
log = "0.4"
env_logger = { version = "0.11", default-features = false }
android_logger = { version = "0.15", default-features = false }
android_clipboard = "0.1"
