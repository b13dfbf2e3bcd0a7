[package]
name = "razer_driver_rs"
version = "0.1.0"
edition = "2021"
publish = false

[dependencies]
chrono = "0.4"
dirs = "*"
hidapi = "*"
rusqlite = { version = "*", features = ["bundled"] }
