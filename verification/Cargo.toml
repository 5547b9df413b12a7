[package]
name = "proj_transform"
version = "0.1.0"
edition = "2021"
publish = false

[dependencies]
approx = "*"
proj-sys = "*"
