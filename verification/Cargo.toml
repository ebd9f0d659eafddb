[package]
name = "marching_squares"
version = "0.1.0"
edition = "2021"
publish = false

[dependencies]
piston = "*"
piston2d-graphics = "*"
pistoncore-glutin_window = "*"
piston2d-opengl_graphics = "*"
