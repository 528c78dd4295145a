[package]
name = "sog_decoder"
version = "0.1.0"
edition = "2021"
publish = false

[dependencies]
image-webp = "*"
zip = { version = "*", default-features = false, features = ["deflate"] }
serde = { version = "1", features = ["derive"] }
serde_json = "1"
thiserror = "*"
wasm-bindgen = "*"
