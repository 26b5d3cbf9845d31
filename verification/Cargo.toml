[package]
name = "webtween"
version = "0.1.0"
edition = "2021"
publish = false

[dependencies]
regex = "*"
wasm-bindgen = "*"
web-sys = { version = "*", features = ["Window", "Document", "Element", "HtmlElement", "Node", "NodeList", "CssStyleDeclaration", "EventTarget"] }
gloo = { version = "*", default-features = false, features = ["events"] }
generational-arena = "*"
paste = "*"
palette = "*"
