[package]
name = "raytracer"
version = "0.1.0"
edition = "2021"
publish = false

[dependencies]
rand = "0.7"
rand_chacha = "0.2"
clap = { version = "4", features = ["derive"] }
image = "0.25"
