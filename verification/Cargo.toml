[package]
name = "ui_toolkit_demo"
version = "0.1.0"
edition = "2021"
publish = false

[dependencies]
eframe = { version = "0.36.2", default-features = false, features = ["glow", "x11"] }
