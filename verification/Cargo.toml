[package]
name = "raytracer"
version = "0.1.0"
edition = "2021"
publish = false

[dependencies]
bmp = "*"
crossbeam = "*"
fastrand = "*"
nalgebra = "*"
ndarray = "*"
ndarray-npy = "*"
perlin_noise = "*"
rand = "*"
