[package]
name = "xilem_baseview"
version = "0.1.0"
edition = "2021"
publish = false

[dependencies]
baseview = "0.4"
keyboard-types = "0.8"
masonry = "0.4"
pollster = "0.4"
raw-window-handle = "0.6"
tokio = { version = "1", features = ["rt-multi-thread", "sync"] }
tracing = "0.1"
wgpu = "26"
