[package]
name = "cosmic_nightlight"
version = "0.5.0"
edition = "2021"
publish = false

[dependencies]
chrono = "=0.4.45"
libc = "=0.2.191"
