[package]
name = "pbr_demo"
version = "0.1.0"
edition = "2021"
publish = false

[dependencies]
cgmath = "=0.17.0"
clap = "=2.34.0"
gfx = "=0.18.3"
gfx_app = "=0.9.0"
image = { version = "=0.25.10", default-features = false, features = ["png"] }
rand = "=0.3.23"
winit = "=0.18.1"
