[package]
name = "planet_defense"
version = "0.1.0"
edition = "2021"
publish = false

[dependencies]
rand = "0.8"
bevy = { version = "0.8", default-features = false, features = ["bevy_asset", "bevy_winit", "render", "png", "x11"] }
bevy_rapier2d = "0.16"
bevy_tweening = "0.5"
bevy_asset_loader = "0.12"
