[package]
name = "terradventure"
version = "0.1.0"
edition = "2021"
publish = false

[dependencies]
rand = "=0.8.8"
serde = { version = "=1.0.229", features = ["derive"] }
serde_json = "=1.0.154"
strum = "=0.25.0"
strum_macros = "=0.25.3"
once_cell = "=1.21.4"
dirs = "=5.0.1"
image = { version = "=0.24.9", default-features = false, features = ["png"] }
bevy = { version = "=0.12.1", default-features = false, features = ["serialize"] }
