[package]
name = "vectum"
version = "0.1.0"
edition = "2021"
publish = false

[dependencies]
serde = { version = "1", features = ["derive"] }
zip = "2"
reqwest = { version = "0.12", features = ["blocking"] }
