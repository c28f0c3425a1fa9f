[package]
name = "falling"
version = "0.1.0"
edition = "2021"
publish = false

[dependencies]
rand = "0.8"
serde = { version = "1", features = ["derive"] }
bevy = { version = "0.16", default-features = false, features = ["std", "async_executor", "bevy_asset", "bevy_color", "bevy_core_pipeline", "bevy_log", "bevy_render", "bevy_sprite", "bevy_state", "bevy_text", "bevy_ui", "bevy_window"] }
bevy_rapier2d = { version = "0.31", default-features = false, features = ["dim2"] }
bevy_common_assets = { version = "0.13", features = ["ron"] }
bevy_embedded_assets = "0.13"
