[package]
name = "echo"
version = "0.1.0"
edition = "2021"
publish = false

[dependencies]
bevy = { version = "0.15", default-features = false, features = ["bevy_pbr", "bevy_window", "bevy_winit", "x11"] }
crossterm = "0.28"
rand = "0.8"
