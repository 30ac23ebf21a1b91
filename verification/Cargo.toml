[package]
name = "tinic"
version = "0.1.0"
edition = "2021"
publish = false

[dependencies]
image = { version = "0.25", default-features = false, features = ["png"] }
winit = { version = "0.30", default-features = false, features = ["x11"] }
raw-window-handle = "0.6"
uuid = "1"
sqlite = "0.36"
tokio = { version = "1", default-features = false, features = ["sync", "rt", "macros"] }
