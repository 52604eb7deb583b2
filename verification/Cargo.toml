[package]
name = "exam_doc_converter"
version = "0.1.0"
edition = "2021"
publish = false

[dependencies]
image = "0.24"
chrono = "0.4"
serde = { version = "1", features = ["derive"] }
wasm-bindgen = "0.2"
serde-wasm-bindgen = "0.6"
