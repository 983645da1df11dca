[package]
name = "clip_combine"
version = "0.1.0"
edition = "2021"
publish = false

[dependencies]
hound = "=3.5.1"
serde = { version = "=1.0.229", features = ["derive"] }
serde_json = "=1.0.154"
egui = "=0.27.2"
rfd = "=0.14.1"
