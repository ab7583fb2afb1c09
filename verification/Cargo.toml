[package]
name = "citro3d"
version = "0.1.0"
edition = "2021"

[dependencies]
rustc_apfloat = "=0.1.3"
approx = "=0.5.1"
