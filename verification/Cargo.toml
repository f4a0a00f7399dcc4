[package]
name = "emyrenderer"
version = "0.1.0"
edition = "2021"
publish = false

[dependencies]
clap = "3.1"
glam = "0.20"
image = "0.24"
pixels = "0.9"
tobj = "3.2"
winit = "0.26"
winit_input_helper = "0.12"
