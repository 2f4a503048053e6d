[package]
name = "whirled"
version = "0.1.0"
edition = "2021"
publish = false

[dependencies]
gfx-hal = "=0.9.0"
gfx-backend-empty = "=0.9.0"
glam = "*"
raw-window-handle = "=0.3.4"
winit = "=0.25.0"
