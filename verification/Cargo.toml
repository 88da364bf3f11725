[package]
name = "ember"
version = "0.1.0"
edition = "2021"
publish = false

[dependencies]
cgmath = "=0.18.0"
egui = "=0.17.0"
log = "=0.4.34"
vulkano = "=0.28.0"
vulkano-win = "=0.28.0"
winit = "=0.26.1"
