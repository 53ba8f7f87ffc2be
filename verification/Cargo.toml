[package]
name = "line_follower_sim"
version = "0.1.0"
edition = "2021"
publish = false

[dependencies]
wasmtime = "=36.0.19"
clap = { version = "=3.2.25", features = ["derive"] }
bevy = { version = "=0.16.1", default-features = false }
bevy_rapier3d = { version = "=0.30.0", default-features = false, features = ["dim3"] }
