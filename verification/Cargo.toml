[package]
name = "rknpu2"
version = "0.1.0"
edition = "2021"
publish = false

[dependencies]
half = "2"
image = { version = "0.25", default-features = false, features = ["png", "jpeg"] }
libloading = "0.8"
