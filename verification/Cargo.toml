[package]
name = "image_analysis"
version = "0.1.0"
edition = "2021"
publish = false

[dependencies]
image = "*"
kmeans_colors = "*"
palette = "*"
serde = { version = "*", features = ["derive"] }
serde-wasm-bindgen = "*"
wasm-bindgen = "*"
