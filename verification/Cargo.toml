[package]
name = "ucch"
version = "0.1.0"
edition = "2021"
publish = false

[dependencies]
clap = { version = "*", features = ["derive"] }
gtk4 = "*"
lazy_static = "*"
magick_rust = "*"
