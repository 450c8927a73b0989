[package]
name = "vulkano_engine"
version = "0.1.0"
edition = "2021"
publish = false

[dependencies]
ash = "*"
easy-gltf = "*"
gltf = "*"
image = "*"
nalgebra = "*"
nalgebra-glm = "*"
rapier3d = "*"
sdl3 = "*"
shipyard = "*"
vulkano = "0.35"
