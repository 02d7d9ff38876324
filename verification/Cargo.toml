[package]
name = "keplerian_elements"
version = "0.1.0"
edition = "2021"
publish = false

[dependencies]
glam = { version = "0.24", features = ["serde"] }
serde = { version = "1", features = ["derive"] }
