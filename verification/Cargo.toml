[package]
name = "pathtracer"
version = "0.1.0"
edition = "2021"
publish = false

[dependencies]
rand = "=0.8.8"
image = "=0.24.9"
rayon = "=1.12.0"
roxmltree = "=0.21.1"
nom_stl = "=0.2.2"
wavefront_obj = "=11.0.0"
