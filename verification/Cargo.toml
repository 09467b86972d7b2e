[package]
name = "bunnymark"
version = "0.1.0"
edition = "2021"
publish = false

[dependencies]
fastrand = "2"
once_cell = "1"
serde = { version = "1", features = ["derive"] }
serde-wasm-bindgen = "0.6"
wasm-bindgen = "0.2"
