[package]
name = "piet_raqote"
version = "0.1.0"
edition = "2021"
publish = false

[dependencies]
piet = "=0.0.5"
kurbo = "=0.5.11"
raqote = { version = "=0.8.5", default-features = false }
euclid = "=0.22.14"
