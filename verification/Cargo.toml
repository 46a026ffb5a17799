[package]
name = "bolted_joint"
version = "0.1.0"
edition = "2021"
publish = false

[dependencies]
serde = { version = "1", features = ["derive"] }
egui = "0.32.3"
eframe = { version = "0.32.3", default-features = false, features = ["persistence", "glow", "default_fonts", "x11"] }
hello_egui_utils = "0.9.0"
