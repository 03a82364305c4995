[package]
name = "room_client"
version = "0.1.0"
edition = "2021"
publish = false

[dependencies]
cgmath = "0.17"
collision = "0.20"
time = "0.1"
sdl2 = "*"
gfx_gl = "*"
