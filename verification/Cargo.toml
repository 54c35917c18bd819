[package]
name = "platformer_core"
version = "0.1.0"
edition = "2021"
publish = false

[dependencies]
bevy = { version = "0.12", default-features = false }
bevy_xpbd_2d = { version = "0.3", default-features = false, features = ["2d", "f32"] }
serde = { version = "1", features = ["derive"] }
serde_json = "1"
tiled = "0.11"
toml = "0.8"
