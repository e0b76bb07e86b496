[package]
name = "clipwatch"
version = "0.1.0"
edition = "2021"
publish = false

[dependencies]
serde = { version = "1", features = ["derive"] }
arboard = { version = "3", default-features = false }
