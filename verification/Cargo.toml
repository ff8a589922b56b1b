[package]
name = "embassy_bmp280"
version = "0.1.0"
edition = "2021"
publish = false

[dependencies]
embassy-time = "*"
embassy-sync = "*"
embedded-hal-async = "1.0"
