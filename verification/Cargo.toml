[package]
name = "kikansha"
version = "0.1.0"
edition = "2021"
publish = false

[dependencies]
clap = "*"
gltf = "*"
log = "*"
log4rs = "*"
nalgebra = "*"
nalgebra-glm = "*"
png = "*"
