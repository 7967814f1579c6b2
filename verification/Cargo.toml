[package]
name = "avatar_thumb"
version = "0.1.0"
edition = "2021"
publish = false

[dependencies]
image = { version = "*", features = ["avif"] }
wasm-bindgen = "*"
