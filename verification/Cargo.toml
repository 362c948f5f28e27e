[package]
name = "zippery"
version = "0.1.1"
edition = "2021"
publish = false

[dependencies]
bitcode = { version = "=0.6.9", features = ["derive"] }
chrono = "=0.4.45"
dirs = "=6.0.0"
iced = { version = "=0.14.0", default-features = false, features = ["image", "tiny-skia", "x11", "thread-pool"] }
image = { version = "=0.25.10", default-features = false, features = ["png", "jpeg", "webp"] }
open = "=5.4.5"
rfd = { version = "=0.17.2", default-features = false, features = ["xdg-portal"] }
windows-icons = "=0.4.0"
