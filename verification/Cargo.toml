[package]
name = "opencode_desktop"
version = "0.1.0"
edition = "2021"
publish = false

[dependencies]
chrono = "0.4"
dirs = "6"
futures = "0.3"
tokio = { version = "1", features = ["net", "time", "sync", "rt", "macros"] }
