[package]
name = "pong"
version = "0.1.0"
edition = "2021"
publish = false

[dependencies]
tiled = "=0.16.0"
nphysics2d = "=0.24.0"
ncollide2d = "=0.32.0"

[dev-dependencies]
lerp = "=0.5.0"
