[package]
name = "arcade"
version = "0.1.0"
edition = "2021"
publish = false

[dependencies]
egui = "*"
eframe = { version = "*", default-features = false, features = ["default_fonts", "glow", "x11"] }
egui_extras = { version = "*", default-features = false }
