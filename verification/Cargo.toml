[package]
name = "edu"
version = "0.1.0"
edition = "2021"
publish = false

[dependencies]
ash = "0.33"
winit = "0.26"
