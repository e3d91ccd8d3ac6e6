[package]
name = "sulphate_runtime"
version = "0.1.0"
edition = "2021"
publish = false

[dependencies]
piston_window = "*"
pistoncore-input = "*"
