[package]
name = "skipd"
version = "0.1.0"
edition = "2021"
publish = false

[dependencies]
enigo = "*"
leptos = { version = "*", features = ["ssr"] }
leptos_meta = { version = "*", features = ["ssr"] }
leptos_router = { version = "*", features = ["ssr"] }
serde = { version = "1", features = ["derive"] }
