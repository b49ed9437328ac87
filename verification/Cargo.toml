[package]
name = "museum_pos"
version = "0.1.0"
edition = "2021"
publish = false

[dependencies]
chrono = "0.4"
sqlite = "*"
minijinja = "2"
serde = { version = "1", features = ["derive"] }
anyhow = "1"
