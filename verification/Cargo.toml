[package]
name = "send_it"
version = "0.1.0"
edition = "2021"
publish = false

[dependencies]
eframe = { version = "0.29", default-features = false, features = ["default_fonts", "glow", "x11"] }
egui = "0.29"
tracing = "0.1"
tracing-subscriber = "0.3"
