[package]
name = "led_panel"
version = "0.1.0"
edition = "2021"
publish = false

[dependencies]
wasm-bindgen = "0.2"
wasm-bindgen-futures = "0.4"
web-sys = { version = "0.3", features = ["Window", "Document", "Element", "Node", "EventTarget", "Event", "MouseEvent", "HtmlElement", "HtmlInputElement", "HtmlSelectElement", "SvgElement", "CssStyleDeclaration", "Headers", "Request", "RequestInit", "RequestMode", "Response"] }
