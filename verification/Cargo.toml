[package]
name = "bevy_web_keepalive"
version = "0.1.0"
edition = "2021"
publish = false

[dependencies]
bevy_app = "0.15"
bevy_ecs = "0.15"
bevy_time = "0.15"
wasm-bindgen = "0.2"
web-sys = { version = "0.3", features = ["Blob", "Document", "EventTarget", "Url", "Window", "Worker"] }
