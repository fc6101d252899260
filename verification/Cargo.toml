[package]
name = "ferris-focus"
version = "0.1.0"
edition = "2021"
publish = false

[dependencies]
chrono = "=0.4.45"
dirs = "=7.0.0"
iced = { version = "=0.14.0", default-features = false, features = ["canvas", "tiny-skia", "tokio", "x11"] }
notify-rust = "=4.18.2"
rusqlite = { version = "=0.41.0", features = ["bundled"] }
