[package]
name = "grahams_relay"
version = "0.1.0"
edition = "2021"
publish = false

[dependencies]
anyhow = "1"
bevy = { version = "0.8", default-features = false, features = ["animation", "bevy_asset", "bevy_scene", "bevy_winit", "render", "png", "x11"] }
bevy_asset_loader = "0.12"
bevy_kira_audio = "0.12"
bevy_rapier3d = "0.16"
ron = "0.7"
serde = { version = "1", features = ["derive"] }
