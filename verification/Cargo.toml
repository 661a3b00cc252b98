[package]
name = "benihime"
version = "0.1.0"
edition = "2021"
rust-version = "1.95"
publish = false

[dependencies]
ropey = "=1.6.1"
unicode-general-category = "=1.1.0"
anyhow = "=1.0.104"
thiserror = "=2.0.21"
toml = "=0.8.23"
dirs-next = "=2.0.0"
ignore = "=0.4.33"
egui = "=0.32.3"
eframe = { version = "=0.32.3", default-features = false, features = ["default_fonts", "glow", "x11"] }
