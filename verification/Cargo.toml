[package]
name = "synced_json_store"
version = "0.1.0"
edition = "2021"
publish = false

[dependencies]
notify = "6"
notify-debouncer-full = "0.3"
serde = "1"
serde_json = "1"
