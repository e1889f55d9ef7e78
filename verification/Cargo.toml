[package]
name = "rust_astrology"
version = "0.1.0"
edition = "2021"
publish = false

[dependencies]
anyhow = "1"
chrono = { version = "0.4", features = ["serde"] }
env_logger = "*"
log = "0.4"
nalgebra = "*"
serde = { version = "1", features = ["derive"] }
serde_json = "1"
strum = "*"
strum_macros = "*"
wasm-bindgen = "0.2"
web-sys = { version = "0.3", features = ["CanvasRenderingContext2d", "Document", "DomRect", "Element", "Event", "HtmlCanvasElement", "HtmlElement", "MouseEvent", "Touch", "TouchEvent", "TouchList", "UiEvent", "WheelEvent", "Window"] }
