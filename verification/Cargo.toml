[package]
name = "trekr"
version = "0.1.0"
edition = "2021"
publish = false

[dependencies]
sdl3 = "*"
serde = { version = "1", features = ["derive"] }
