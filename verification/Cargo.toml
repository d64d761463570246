[package]
name = "fractal_clock"
version = "0.1.0"
edition = "2021"
publish = false

[dependencies]
chrono = "*"
serde = { version = "*", features = ["derive"] }
egui = "*"
eframe = { version = "*", default-features = false, features = ["glow", "x11", "default_fonts", "persistence"] }
mimalloc = "*"
