[package]
name = "iterative-stability"
version = "0.1.0"
edition = "2021"
publish = false

[dependencies]
glam = "*"
num-complex = "0.4"
num-traits = "0.2"
rayon = "1"
pollster = "0.3"
palette = "0.6"
wasm-bindgen = "0.2"
