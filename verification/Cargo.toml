[package]
name = "image_resizer_rust"
version = "0.1.0"
edition = "2021"
publish = false

[dependencies]
image = { version = "0.25", default-features = false, features = ["jpeg", "png"] }
fast_image_resize = "5"
clap = "4"

[dev-dependencies]
tempfile = "3"
