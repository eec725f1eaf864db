[package]
name = "layout_2020"
version = "0.1.0"
edition = "2021"
publish = false

[dependencies]
rayon = "*"
euclid = "*"
