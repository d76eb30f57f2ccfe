[package]
name = "acorn"
version = "0.1.0"
edition = "2021"
publish = false

[dependencies]
libgm = "0.1"
num-traits = "0.2"
log = "0.4"
pixels = "0.15"
winit = "0.30"
