[package]
name = "photosort"
version = "0.1.0"
edition = "2021"
publish = false

[dependencies]
chrono = "=0.4.45"
ffmpeg-next = "=9.0.0"
indicatif = "0.18"
log = "=0.4.34"
simple-logging = "=2.0.2"
zip = { version = "=0.6.6", default-features = false, features = ["deflate"] }
