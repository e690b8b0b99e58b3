[package]
name = "browser_node"
version = "0.1.0"
edition = "2021"
publish = false

[dependencies]
log = "0.4"
wasm-bindgen = "0.2"

[dev-dependencies]
serde_json = "1"
