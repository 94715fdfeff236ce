[package]
name = "pi_touch_app"
version = "0.1.0"
edition = "2021"
publish = false

[package.metadata.unbuilt]
crates = ["tauri", "tauri-plugin-opener"]
