[package]
name = "power_plan_manager"
version = "0.1.0"
edition = "2021"
publish = false

[dependencies]
regex = "=1.13.1"
eframe = { version = "=0.34.3", default-features = false, features = ["default_fonts", "glow", "x11"] }
rfd = { version = "=0.17.2", default-features = false, features = ["xdg-portal"] }
webbrowser = "=1.2.6"
