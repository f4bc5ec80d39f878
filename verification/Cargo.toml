[package]
name = "flycam"
version = "0.1.0"
edition = "2021"
publish = false

[dependencies]
bevy = { version = "0.16", default-features = false, features = ["std", "bevy_window", "bevy_log", "bevy_core_pipeline"] }
