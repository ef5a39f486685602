[package]
name = "wichita_housing_logistics"
version = "0.1.0"
edition = "2021"
publish = false

[dependencies]
leptos = { version = "0.8", features = ["ssr"] }
leptos_meta = { version = "0.8", features = ["ssr"] }
leptos_router = { version = "0.8", features = ["ssr"] }
leptos_axum = "0.8"
axum = "0.8"
worker = { version = "*", features = ["http", "axum", "d1"] }
serde = { version = "1", features = ["derive"] }
send_wrapper = "*"
console_error_panic_hook = "*"
wasm-bindgen = "*"
tower-service = "*"
