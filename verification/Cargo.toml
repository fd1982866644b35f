[package]
name = "skytiles"
version = "0.1.0"
edition = "2021"
publish = false

[dependencies]
pracstro = "*"
chrono = "*"
html-escape = "*"
iau_constellations = "*"
