[package]
name = "iomha"
version = "0.1.0"
edition = "2021"
publish = false

[dependencies]
iced = { version = "=0.14.0", default-features = false, features = ["tiny-skia", "canvas", "image", "advanced", "x11", "thread-pool"] }
iced_aw = "=0.14.1"
rfd = { version = "=0.17.2", default-features = false, features = ["xdg-portal"] }
