[package]
name = "arachnophobic"
version = "0.1.0"
edition = "2021"
publish = false

[dependencies]
bevy = { version = "=0.7.0", default-features = false, features = ["render"] }
bevy_asset_loader = { version = "=0.11.0", features = ["2d"] }
heron = { version = "=3.1.0", features = ["2d"] }
iyes_loopless = "=0.5.1"
rand = "=0.8.8"
