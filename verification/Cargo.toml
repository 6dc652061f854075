[package]
name = "keyboard_heatmap"
version = "0.1.0"
edition = "2021"
publish = false

[dependencies]
eframe = { version = "0.33", default-features = false, features = ["default_fonts", "glow", "x11"] }
egui = "0.33"
rdev = "0.5"
font-kit = "0.14"
serde = { version = "1", features = ["derive"] }
serde_json = "1"
dirs = "6"
chrono = "0.4"
