[package]
name = "hold_the_line"
version = "0.1.0"
edition = "2021"
publish = false

[dependencies]
bevy = { version = "=0.12.1", default-features = false, features = ["bevy_asset"] }
bevy_rapier2d = { version = "=0.23.0", default-features = false, features = ["dim2", "headless"] }
rand = "=0.8.8"
serde = { version = "=1.0.229", features = ["derive"] }
serde_json = "=1.0.154"
thiserror = "=1.0.69"
