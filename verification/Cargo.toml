[package]
name = "gifanim"
version = "0.1.0"
edition = "2021"
publish = false

[dependencies]
gif = "*"
wasm-bindgen = "*"
console_error_panic_hook = "*"
