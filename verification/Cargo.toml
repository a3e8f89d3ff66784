[package]
name = "pytauri_core"
version = "0.1.0"
edition = "2021"
publish = false

[dependencies]
http = "1"
pyo3 = "0.23"
tauri = { version = "2", default-features = false, features = ["wry"] }
