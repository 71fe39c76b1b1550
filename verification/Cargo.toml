[package]
name = "rpi_ws281x_c"
version = "0.1.0"
edition = "2021"
publish = false

[dependencies]
rpi_ws281x-sys = "*"
libc = "*"
