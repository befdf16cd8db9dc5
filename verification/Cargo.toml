[package]
name = "gameboy"
version = "0.1.0"
edition = "2021"
publish = false

[dependencies]
sdl2 = "0.35"
serde = { version = "1", features = ["derive"] }
serde_json = "1"

[dev-dependencies]
rand = "0.8"
