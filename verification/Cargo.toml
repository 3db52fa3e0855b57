[package]
name = "web_worker"
version = "0.1.0"
edition = "2021"
publish = false

[dependencies]
console_error_panic_hook = "=0.1.7"
rayon = "=1.12.0"
wasm-bindgen = "=0.2.129"
web-sys = { version = "=0.3.106", features = ["console", "Window", "Navigator", "Worker", "WorkerOptions", "MessageEvent", "ErrorEvent"] }
