[package]
name = "quad_gl"
version = "0.1.0"
edition = "2021"
publish = false

[dependencies]
glam = "*"
miniquad = "0.4"
slotmap = "1.0"
