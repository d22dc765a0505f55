[package]
name = "offscreen_handoff"
version = "0.1.0"
edition = "2021"
publish = false

[dependencies]
wasm-bindgen = "*"
js-sys = "*"
web-sys = { version = "*", features = [
    "Window",
    "Document",
    "Element",
    "HtmlElement",
    "HtmlCanvasElement",
    "OffscreenCanvas",
    "Worker",
    "Blob",
    "BlobPropertyBag",
    "Url",
    "MessageEvent",
    "DedicatedWorkerGlobalScope",
    "Location",
] }
