[package]
name = "lzma_tarball"
version = "0.1.0"
edition = "2021"
publish = false

[dependencies]
tar = "*"
xz2 = "*"
walkdir = "*"
chrono = "*"
