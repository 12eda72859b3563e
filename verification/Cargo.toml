[package]
name = "window_context"
version = "0.1.0"
edition = "2021"
publish = false

[dependencies]
alacritty_terminal = { version = "0.25", features = ["serde"] }
glutin = { version = "0.32", default-features = false, features = ["egl", "x11"] }
log = "0.4"
serde_json = "1"
winit = { version = "0.30", default-features = false, features = ["x11", "rwh_06"] }
