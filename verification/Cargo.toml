[package]
name = "diogen"
version = "0.1.0"
edition = "2021"
publish = false

[dependencies]
dioxus = { version = "0.6", default-features = false, features = ["macro", "html", "signals", "hooks", "asset"] }
js-sys = "0.3"
modwire = "*"
paste = "1"
serde-wasm-bindgen = "0.6"
thiserror = "2"
wasm-bindgen = "0.2"
web-sys = { version = "0.3", features = ["Window", "Document", "Element", "DomRect", "Event", "MouseEvent", "EventTarget", "console"] }
