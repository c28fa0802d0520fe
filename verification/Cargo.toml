[package]
name = "screen_grabbing"
version = "0.1.0"
edition = "2021"
publish = false

[dependencies]
livesplit-hotkey = "=0.7.0"
druid = "=0.8.3"
druid-shell = "=0.8.3"
im = "=15.1.0"
image = { version = "=0.24.9", default-features = false, features = ["png", "jpeg", "gif", "pnm", "tga", "tiff", "bmp", "qoi", "webp"] }
imageproc = { version = "=0.23.1", default-features = false }
rusttype = "=0.9.3"
arboard = "=3.2.1"
chrono = { version = "=0.4.45", default-features = false, features = ["clock", "std"] }
crossbeam = "=0.8.5"
