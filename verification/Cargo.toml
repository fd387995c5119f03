[package]
name = "rs8080"
version = "0.1.0"
edition = "2021"
publish = false

[dependencies]
sdl2 = { version = "=0.38.0", features = ["mixer"] }
serde = { version = "=1.0.229", features = ["derive"] }
toml = "=1.1.8"
