[package]
name = "bug_lib"
version = "0.1.0"
edition = "2021"
publish = false

[dependencies]
bevy = { version = "=0.12.1", default-features = false, features = ["bevy_asset"] }
bevy_asset_loader = { version = "0.18", default-features = false }
bevy_embedded_assets = { version = "0.9", default-features = false }
rand = "=0.8.8"
