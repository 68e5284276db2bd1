[package]
name = "snake"
version = "0.1.0"
edition = "2021"
publish = false

[dependencies]
rand = "=0.8.8"
bevy = { version = "=0.7.0", default-features = false, features = ["render", "bevy_winit", "x11"] }
bevy-inspector-egui = "=0.11.0"
ndk-macro = "=0.3.0"
