[package]
name = "iced_chess"
version = "0.1.0"
edition = "2021"
publish = false

[dependencies]
chess = "=3.2.0"
iced = { version = "=0.14.0", default-features = false, features = ["canvas", "image", "advanced", "x11", "thread-pool", "tiny-skia"] }
kira = { version = "=0.12.5", default-features = false, features = ["ogg", "vorbis"] }
