[package]
name = "fractal_pipeline"
version = "0.1.0"
edition = "2021"
publish = false

[dependencies]
const_format = "=0.2.36"
libc = "=0.2.190"
opengles = "=0.1.2"
