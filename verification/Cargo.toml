[package]
name = "ws_adapter"
version = "0.1.0"
edition = "2021"
publish = false

[dependencies]
futures = "0.3"
js-sys = "0.3"
wasm-bindgen = "0.2"
web-sys = { version = "0.3", features = ["WebSocket", "MessageEvent", "BinaryType"] }
