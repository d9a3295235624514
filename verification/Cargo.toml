[package]
name = "fretboard"
version = "0.1.0"
edition = "2021"
publish = false

[dependencies]
anyhow = "1"
once_cell = "1"
rodio = { version = "0.19", default-features = false }
serde = { version = "1", features = ["derive"] }
serde_json = "1"
