[package]
name = "forgedtiles"
version = "0.1.0"
edition = "2021"
publish = false

[dependencies]
maths-rs = "*"
rand = "0.8"
rayon = "1"
serde = { version = "1", features = ["derive"] }
