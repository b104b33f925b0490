[package]
name = "practice_theme"
version = "0.1.0"
edition = "2021"
publish = false

[dependencies]
once_cell = "1"
serde = { version = "1", features = ["derive"] }
wasm-bindgen = "0.2"
web-sys = { version = "0.3", features = ["Window", "Document", "Element", "HtmlElement", "CssStyleDeclaration"] }
