[package]
name = "player"
version = "0.1.0"
edition = "2021"
publish = false

[dependencies]
gstreamer = "=0.16.7"
gstreamer-player = "=0.16.5"
tokio = { version = "=1.54.1", features = ["sync"] }
