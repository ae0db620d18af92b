[package]
name = "mapgen"
version = "0.1.0"
edition = "2021"
publish = false

[dependencies]
glam = "*"
serde = { version = "1", features = ["derive"] }
toml = "*"
anyhow = "1"
rayon = "1"
