[package]
name = "scroll_stitch"
version = "0.1.0"
edition = "2021"
publish = false

[dependencies]
image = { version = "*", default-features = false, features = ["png"] }
imageproc = { version = "*", default-features = false }
fast_image_resize = "*"
hora = "*"
rayon = "1"
serde = { version = "1", features = ["derive"] }
