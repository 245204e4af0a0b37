[package]
name = "stardew_save"
version = "0.1.0"
edition = "2021"
publish = false

[dependencies]
anyhow = "1"
console_error_panic_hook = "0.1"
gloo-file = "0.2"
roxmltree = "0.14"
wasm-bindgen = "0.2"
web-sys = { version = "0.3", features = ["Event", "EventTarget", "File", "FileList", "HtmlInputElement"] }
yew = "0.19"
