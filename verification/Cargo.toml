[package]
name = "clip_optimizer"
version = "0.1.0"
edition = "2021"
publish = false

[dependencies]
clipboard-master = "4"
clipboard-rs = "*"
image = { version = "0.25", default-features = false, features = ["bmp", "jpeg", "png", "tiff", "webp"] }
log = "0.4"
