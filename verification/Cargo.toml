[package]
name = "windmill_gallery"
version = "0.1.0"
edition = "2021"
publish = false

[dependencies]
bevy = "0.5"
bevy_fly_camera = "0.7"
rand = "=0.8.8"
