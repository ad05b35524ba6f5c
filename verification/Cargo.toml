[package]
name = "scuffle_ffmpeg"
version = "0.1.0"
edition = "2021"
publish = false

[dependencies]
rusty_ffmpeg = "=0.16.7"
