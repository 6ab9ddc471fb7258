[package]
name = "fishmans_adventure"
version = "0.1.0"
edition = "2021"
publish = false

[dependencies]
rand = "0.8"
kd-tree = "0.6"
typenum = "1"
chrono = { version = "0.4", default-features = false, features = ["clock"] }
bevy = { version = "0.15", default-features = false, features = ["bevy_state", "bevy_asset", "bevy_sprite", "bevy_text", "bevy_ui", "bevy_render", "bevy_core_pipeline", "default_font"] }
