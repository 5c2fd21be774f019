[package]
name = "reddit_slideshow"
version = "0.1.0"
edition = "2021"
publish = false

[dependencies]
anyhow = "1"
log = "0.4"
regex = "1"
serde = { version = "1", features = ["derive"] }
wasm-bindgen = "0.2"
wasm-logger = "0.2"
web-sys = { version = "0.3", features = ["Event", "EventTarget", "HtmlVideoElement", "Location", "Window"] }
yew = "0.17"
