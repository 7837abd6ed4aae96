[package]
name = "okfd"
version = "0.1.0"
edition = "2021"
publish = false

[dependencies]
avian3d = { version = "0.1", default-features = false, features = ["3d", "f32", "parry-f32", "default-collider"] }
bevy = { version = "0.14", default-features = false, features = ["bevy_asset", "bevy_state"] }
bevy-persistent = { version = "0.6", features = ["toml"] }
gltf = { version = "1.4", default-features = false, features = ["names"] }
serde = { version = "1", features = ["derive"] }
