[package]
name = "dotsim"
version = "0.1.0"
edition = "2021"
publish = false

[dependencies]
rand = "*"
termion = "*"
