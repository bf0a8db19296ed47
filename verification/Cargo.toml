[package]
name = "color_support"
version = "0.1.0"
edition = "2021"
publish = false

[dependencies]
is_ci = "*"
is-terminal = "*"
once_cell = "*"
