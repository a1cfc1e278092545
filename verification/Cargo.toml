[package]
name = "stick_wheel"
version = "0.1.0"
edition = "2021"
publish = false

[dependencies]
input-linux = "*"
