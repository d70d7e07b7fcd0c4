[package]
name = "pattern_grid"
version = "0.1.0"
edition = "2021"
publish = false

[dependencies]
failure = "0.1"
gl_lib = "*"
