[package]
name = "puppet_viewport"
version = "0.1.0"
edition = "2021"
publish = false

[dependencies]
anyhow = "1"
bytes = "1"
console_error_panic_hook = "0.1"
glam = "0.25"
inox2d = "0.2"
log = "0.4"
reqwest = { version = "0.11", default-features = false }
wasm-bindgen-futures = "0.4"
wasm-logger = "0.2"
web-sys = { version = "0.3", features = ["Document", "Element", "HtmlElement", "Location", "Node", "Performance", "Window"] }
winit = { version = "0.28", default-features = false, features = ["x11"] }
