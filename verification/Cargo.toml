[package]
name = "texquiz"
version = "0.1.0"
edition = "2021"
publish = false

[dependencies]
katex = "*"
regex = "*"
rand = "*"
wasm-bindgen = "*"
js-sys = "*"
web-sys = { version = "*", features = ["Window", "Document", "Element", "HtmlElement", "HtmlTextAreaElement", "HtmlButtonElement", "console"] }
