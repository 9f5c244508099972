[package]
name = "mdview"
version = "0.1.0"
edition = "2021"
publish = false

[dependencies]
pulldown-cmark = "*"
sys-locale = "*"
serde = { version = "*", features = ["derive"] }
clap = { version = "*", features = ["derive"] }
eframe = { version = "*", default-features = false, features = ["glow", "x11", "persistence", "default_fonts"] }
egui-phosphor = "*"
env_logger = "*"
rfd = "*"
