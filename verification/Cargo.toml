[package]
name = "swc_boundary"
version = "0.1.0"
edition = "2021"
publish = false

[dependencies]
wasm-bindgen = "*"
js-sys = "*"
wasm-bindgen-futures = "*"
console_error_panic_hook = "*"
serde-wasm-bindgen = "*"
serde = { version = "*", features = ["derive"] }
