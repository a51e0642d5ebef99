[package]
name = "linux_drm"
version = "0.1.0"
edition = "2021"
publish = false

[dependencies]
linux-io = "*"
linux-unsafe = "*"
