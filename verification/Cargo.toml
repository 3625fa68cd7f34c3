[package]
name = "wasmimage"
version = "0.1.0"
edition = "2021"
publish = false

[dependencies]
image = "0.25"
wasm-bindgen = "0.2"
js-sys = "0.3"
