[package]
name = "rockwork"
version = "0.1.0"
edition = "2021"
publish = false

[dependencies]
gl = "0.14"
image = { version = "*", default-features = false, features = ["png", "tga"] }
nalgebra = "*"
sdl2 = { version = "*", features = ["mixer"] }
