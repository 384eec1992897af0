[package]
name = "streamlink-video-launcher"
version = "0.1.0"
edition = "2021"
publish = false

[dependencies]
dirs = "5"
iced = { version = "0.13", default-features = false, features = ["tiny-skia"] }
rfd = "0.15"
serde = { version = "1", features = ["derive"] }
serde_json = "1"
ureq = "2"
