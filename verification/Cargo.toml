[package]
name = "pinball_core"
version = "0.1.0"
edition = "2021"
publish = false

[dependencies]
avian2d = "=0.4.1"
bevy = { version = "=0.17.3", default-features = false }
