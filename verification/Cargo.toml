[package]
name = "rmenu"
version = "0.1.0"
edition = "2021"
publish = false

[dependencies]
freedesktop_entry_parser = "=1.3.0"
eframe = { version = "0.27", default-features = false, features = ["glow"] }
egui_extras = { version = "0.27", default-features = false }
env_logger = { version = "0.11", default-features = false }
