[package]
name = "tracing-wasm"
version = "0.2.1"
edition = "2021"
publish = false

[dependencies]
rayon = "1"
tracing = "0.1"
tracing-log = "0.2"
tracing-subscriber = { version = "0.3", default-features = false, features = ["registry"] }
wasm-bindgen = "0.2"
