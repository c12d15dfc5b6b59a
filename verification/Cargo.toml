[package]
name = "cube_state"
version = "0.1.0"
edition = "2021"
publish = false

[dependencies]
min2phase = "=0.2.4"
eframe = { version = "=0.36.2", default-features = false, features = ["glow", "x11"] }
