[package]
name = "sours"
version = "0.1.0"
edition = "2021"
publish = false

[dependencies]
lofty = "*"
rand = "*"
rodio = "*"
serde = { version = "*", features = ["derive"] }
serde_json = "*"
