[package]
name = "tacagaita"
version = "0.1.0"
edition = "2021"
publish = false

[dependencies]
nalgebra-glm = "*"
image = "*"
rand = "0.8"
gl = "*"
glfw = "*"
