[package]
name = "hook_line_sinker"
version = "0.1.0"
edition = "2021"
publish = false

[dependencies]
rand = "*"
