[package]
name = "clippy_core"
version = "0.1.0"
edition = "2021"
publish = false

[dependencies]
ring = "0.17"
image = { version = "0.25", default-features = false, features = ["png", "jpeg", "gif", "bmp", "webp", "tiff", "ico"] }
serde = { version = "1", features = ["derive"] }
