[package]
name = "path_revealer"
version = "0.1.0"
edition = "2021"
publish = false

[dependencies]
fork = "0.1"
tauri = { version = "2", default-features = false, features = ["wry"] }
tauri-plugin-fs = { version = "2", default-features = false }
