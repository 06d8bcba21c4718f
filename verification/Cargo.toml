[package]
name = "tge"
version = "0.1.0"
edition = "2021"
publish = false

[dependencies]
winit = "0.28"
glow = "0.13"
gilrs = "0.10"
