[package]
name = "julia_set_renderer"
version = "0.1.0"
edition = "2021"
publish = false

[dependencies]
rayon = "=1.12.0"
colorgrad = { version = "=0.9.0", features = ["preset"] }
image = "=0.25.10"
clap = { version = "=4.6.7", features = ["derive"] }
opener = "=0.9.0"
