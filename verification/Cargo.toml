[package]
name = "sliding_clip_box"
version = "0.1.0"
edition = "2021"
publish = false

[dependencies]
tracing = "0.1"
kurbo = "0.9"
