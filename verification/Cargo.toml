[package]
name = "chat_r"
version = "0.1.0"
edition = "2021"
publish = false

[dependencies]
serde = { version = "=1.0.229", features = ["derive"] }
serde_json = "=1.0.154"
uuid = { version = "=1.29.0", features = ["v4"] }
actix = "=0.13.5"
actix-web = { version = "=4.18.1", default-features = false, features = ["ws"] }
actix-web-actors = "=4.3.1"
leptos = "=0.4.10"
leptos_meta = "=0.4.10"
leptos_router = "=0.4.10"
log = "=0.4.35"
cfg-if = "=1.0.5"
web-sys = { version = "=0.3.107", features = ["SubmitEvent", "MessageEvent", "WebSocket"] }
js-sys = "=0.3.107"
wasm-bindgen = "=0.2.130"
