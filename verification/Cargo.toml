[package]
name = "video_backend"
version = "0.1.0"
edition = "2021"
publish = false

[dependencies]
ffmpeg-next = "=9.0.0"
nalgebra = "=0.35.0"
tiny-skia = "=0.12.0"
yuv = { version = "=0.8.19", features = ["fast_mode"] }
