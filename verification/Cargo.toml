[package]
name = "hexcell"
version = "0.1.0"
edition = "2021"
publish = false

[dependencies]
heapless = "0.7"
embedded-time = "0.12"
embedded-error-chain = "*"
zerocopy = "0.6"
array-init = "*"
spmc = "*"
assertions = "*"
piston = "*"
piston2d-graphics = "*"
piston2d-opengl_graphics = "*"
pistoncore-glutin_window = "*"
