[package]
name = "fabric_ui"
version = "0.1.0"
edition = "2021"
publish = false

[dependencies]
tiny-skia = "*"
font-kit = "*"
pathfinder_geometry = "*"
