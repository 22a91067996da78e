[package]
name = "darkness"
version = "0.1.0"
edition = "2021"
publish = false

[dependencies]
cgmath = "*"
edn = "*"
gfx = "*"
gfx_core = "*"
gfx_device_gl = "*"
gfx_window_glutin = "*"
glutin = "0.21"
image = { version = "*", default-features = false, features = ["png"] }
