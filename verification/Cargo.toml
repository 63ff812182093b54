[package]
name = "term_video"
version = "0.1.0"
edition = "2021"
publish = false

[dependencies]
ffmpeg4-ffi = "*"
term_size = "0.3"
