[package]
name = "sgl"
version = "0.1.0"
edition = "2021"
publish = false

[dependencies]
glow = "*"
winit = { version = "0.27", default-features = false, features = ["x11"] }
glutin = { version = "0.29", default-features = false, features = ["x11"] }
