[package]
name = "vortex_panels"
version = "0.1.0"
edition = "2021"
publish = false

[dependencies]
rustc_apfloat = "=0.1.3"
rand = "=0.8.8"
nalgebra = "=0.33.3"
cgmath = "=0.18.0"
easy-gltf = "*"
