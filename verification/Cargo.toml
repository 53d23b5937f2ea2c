[package]
name = "moon_art"
version = "0.1.0"
edition = "2021"
publish = false

[dependencies]
clap = { version = "4", features = ["derive"] }
image = { version = "0.25", default-features = false, features = ["rayon", "png", "jpeg", "gif", "bmp", "tiff", "webp", "ico", "pnm", "tga"] }
itertools = "0.14"
rayon = "1"
