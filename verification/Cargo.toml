[package]
name = "vmnl"
version = "0.1.0"
edition = "2021"
publish = false

[dependencies]
arc-swap = "1"
bytemuck = { version = "1", features = ["derive"] }
claxon = "0.4"
glfw = "*"
hound = "3"
lewton = "0.10"
log = "0.4"
miniaudio = "*"
minimp3 = "*"
shaderc = "*"
vulkano = "*"
