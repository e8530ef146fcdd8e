[package]
name = "ml_frontend"
version = "0.1.0"
edition = "2021"
publish = false

[dependencies]
serde = { version = "1", features = ["derive"] }
serde_json = "1"
yew = { version = "*", features = ["csr"] }
web-sys = { version = "*", features = ["HtmlInputElement", "HtmlSelectElement", "FormData", "console", "Window", "File", "FileList", "Blob", "Event", "EventTarget", "InputEvent", "SubmitEvent"] }
wasm-bindgen = "*"
wasm-bindgen-futures = "*"
gloo-net = { version = "*", default-features = false, features = ["http", "json"] }
gloo-timers = { version = "*", features = ["futures"] }
