[package]
name = "watchlog"
version = "0.1.0"
edition = "2021"
publish = false

[dependencies]
eframe = { version = "0.37", default-features = false, features = ["default_fonts", "glow", "x11"] }
notify = "=6.1.1"
rand = "=0.8.8"
rfd = "=0.14.1"
