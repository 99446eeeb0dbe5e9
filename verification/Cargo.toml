[package]
name = "tflite_binding"
version = "0.1.0"
edition = "2021"
publish = false

[dependencies]
semver = "1"
libloading = "0.8"
