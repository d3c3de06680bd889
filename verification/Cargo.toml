[package]
name = "galaxy"
version = "0.1.0"
edition = "2021"
publish = false

[dependencies]
ang = "=0.6.0"
bevy = { version = "=0.5.0", default-features = false, features = ["bevy_wgpu", "bevy_winit", "render", "x11"] }
darling = "=0.10.2"
rand = "=0.8.8"

[dev-dependencies]
glam = "=0.13.1"
