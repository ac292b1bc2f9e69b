[package]
name = "animbox"
version = "0.1.0"
edition = "2021"
publish = false

[dependencies]
gl = "0.14"
nalgebra-glm = "*"
glutin = "0.19"
