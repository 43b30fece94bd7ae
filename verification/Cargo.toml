[package]
name = "shader_lab"
version = "0.1.0"
edition = "2021"
publish = false

[dependencies]
glium = "=0.36.0"
glutin = "=0.32.3"
image = { version = "=0.25.10", default-features = false, features = ["png", "jpeg"] }
clock_ticks = "=0.1.1"
