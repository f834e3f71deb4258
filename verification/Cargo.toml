[package]
name = "curve_reveal"
version = "0.1.0"
edition = "2021"
publish = false

[dependencies]
nannou = "=0.18.1"
