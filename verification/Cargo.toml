[package]
name = "gpu_buffer"
version = "0.1.0"
edition = "2021"
publish = false

[dependencies]
cgmath = "*"
data_type = "*"
glow = "*"
half = "*"
