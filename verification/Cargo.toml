[package]
name = "ralaire"
version = "0.1.0"
edition = "2021"
publish = false

[dependencies]
peniko = "=0.2.0"
parley = "=0.2.0"
vello = { version = "=0.3.0", default-features = false }
vello_svg = { version = "=0.5.0", default-features = false }
winit = { version = "=0.30.13", default-features = false, features = ["x11", "rwh_06"] }
tokio = { version = "=1.54.1", features = ["rt-multi-thread", "time"] }
tracing = "0.1"
itertools = "=0.13.0"
