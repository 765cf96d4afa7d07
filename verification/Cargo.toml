[package]
name = "villkiss"
version = "0.1.0"
edition = "2021"
publish = false

[dependencies]
byteorder = "1"
cgmath = "0.17"
gfx-hal = "0.2"
gfx-memory = "*"
gfx-backend-vulkan = "0.2"
winit = "0.19"
