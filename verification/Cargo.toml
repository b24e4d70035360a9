[package]
name = "codescan"
version = "0.1.0"
edition = "2021"
publish = false

[dependencies]
wasm-bindgen = { version = "*", features = ["serde-serialize"] }
