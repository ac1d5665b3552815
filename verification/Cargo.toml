[package]
name = "tarock"
version = "0.1.0"
edition = "2021"
publish = false

[dependencies]
itertools = "*"
rand = "0.8"
strum = "*"
strum_macros = "*"
