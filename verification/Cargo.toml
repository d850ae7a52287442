[package]
name = "audio_stream"
version = "0.1.0"
edition = "2021"
publish = false

[dependencies]
crossbeam-queue = "0.3"
bevy_app = { version = "0.14", default-features = false }
bevy_asset = { version = "0.14", default-features = false }
bevy_audio = { version = "0.14", default-features = false }
bevy_ecs = { version = "0.14", default-features = false }
bevy_reflect = { version = "0.14", default-features = false }
