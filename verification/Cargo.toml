[package]
name = "termplot"
version = "0.1.0"
edition = "2021"
publish = false

[dependencies]
crossfont = "*"
alacritty_terminal = "*"
nalgebra = "*"

[dev-dependencies]
bmp = "*"
