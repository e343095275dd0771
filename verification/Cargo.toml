[package]
name = "yfc"
version = "0.1.0"
edition = "2021"
publish = false

[dependencies]
yew = "0.20"
ybc = "*"
web-sys = { version = "0.3", features = ["HtmlInputElement", "HtmlSelectElement", "HtmlTextAreaElement", "InputEvent", "Event", "EventTarget"] }
wasm-bindgen = "0.2"
syn = "1"
quote = "1"
proc-macro2 = "1"
Inflector = "0.11"
strum = { version = "0.24", features = ["derive"] }
serde = { version = "1", features = ["derive"] }
validator = "0.16"
