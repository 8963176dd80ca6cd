[package]
name = "bandcompta"
version = "0.1.0"
edition = "2021"
publish = false

[dependencies]
serde = { version = "=1.0.229", features = ["derive"] }
rusqlite = { version = "=0.41.1", features = ["bundled"] }
serde_rusqlite = "=0.44.0"
axum = { version = "=0.8.9", features = ["multipart"] }
tokio = { version = "=1.54.1", features = ["full"] }
tower-http = { version = "=0.6.11", features = ["cors"] }
gloo-net = "=0.6.0"
web-sys = { version = "=0.3.107", features = ["File", "FileList", "FormData", "Blob", "Event", "EventTarget", "HtmlInputElement", "HtmlSelectElement"] }
yew = { version = "0.21", features = ["csr"] }
yew-router = "0.18"
wasm-bindgen-futures = "0.4"
