[package]
name = "autoclicker"
version = "0.1.0"
edition = "2021"
publish = false

[dependencies]
rand = "0.8"
rdev = "0.5"
eframe = { version = "0.29", default-features = false, features = ["default_fonts", "glow", "x11"] }
