[package]
name = "audio_pipeline"
version = "0.1.0"
edition = "2021"
publish = false

[dependencies]
hound = "*"
libc = "*"
ffmpeg-next = "*"
ffmpeg-sys-next = "*"
