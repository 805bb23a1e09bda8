[package]
name = "xcrypt"
version = "0.3.0"
edition = "2021"
publish = false

[dependencies]
xcrypt-sys = "*"
