[package]
name = "momentary"
version = "0.1.0"
edition = "2021"
publish = false

[dependencies]
eframe = { version = "*", default-features = false, features = ["glow", "default_fonts", "persistence", "x11"] }
egui = "*"
log = "*"
serde = { version = "*", features = ["derive"] }
web-time = "*"
