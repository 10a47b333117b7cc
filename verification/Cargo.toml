[package]
name = "tooltip"
version = "0.1.0"
edition = "2021"
publish = false

[dependencies]
leptos = { version = "=0.6.15", features = ["csr"] }
leptos-use = "=0.13.13"
web-sys = { version = "=0.3.106", features = ["HtmlElement", "HtmlHtmlElement", "Element", "Node", "Window", "Document", "Event", "MouseEvent", "EventTarget", "DomRect", "CssStyleDeclaration"] }
