[package]
name = "photowall"
version = "0.1.0"
edition = "2021"
publish = false

[dependencies]
rand = "0.9"
anyhow = "1"
clap = { version = "4", features = ["derive"] }
kamadak-exif = "0.6"
raylib = "*"
usls = "*"
