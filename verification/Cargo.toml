[package]
name = "alive"
version = "0.1.0"
edition = "2021"
publish = false

[dependencies]
bevy = { version = "0.17", default-features = false, features = ["bevy_ui", "bevy_sprite", "bevy_text"] }
serde_json = "1"
ureq = { version = "2", default-features = false, features = ["json"] }
