[package]
name = "libtetris"
version = "0.1.0"
edition = "2021"
publish = false

[dependencies]
enum-map = "*"
enumset = "1"
rand = "0.7"
serde = { version = "1", features = ["derive"] }
