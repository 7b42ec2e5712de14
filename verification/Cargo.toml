[package]
name = "grb_param"
version = "0.1.0"
edition = "2021"
publish = false

[dependencies]
grb-sys = "*"
