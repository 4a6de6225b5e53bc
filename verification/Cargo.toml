[package]
name = "rex_tui"
version = "0.1.0"
edition = "2021"
publish = false

[dependencies]
chrono = "0.4"
rusqlite = { version = "0.31", features = ["bundled"] }
dirs = "5"
