[package]
name = "xvm"
version = "0.1.0"
edition = "2021"
publish = false

[dependencies]
iced-x86 = { version = "1", default-features = false, features = ["std", "decoder"] }
sdl2 = { version = "0.37", features = ["ttf"] }
