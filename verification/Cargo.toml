[package]
name = "leptos_dom"
version = "0.1.0"
edition = "2021"
publish = false

[dependencies]
leptos_reactive = { version = "0.1", default-features = false, features = ["stable"] }
wasm-bindgen = "0.2"
web-sys = { version = "0.3", features = ["Node", "Comment", "Document", "Window"] }
