[package]
name = "auto_arena"
version = "0.1.0"
edition = "2021"
publish = false

[dependencies]
anyhow = "1"
chrono = "0.4"
fugit = "=0.3.9"
fugit-timer = "=0.1.3"
nb = "=1.1.0"
once_cell = "1"
reqwest = { version = "0.13", default-features = false }
serde = { version = "1", features = ["derive"] }
tracing = "0.1"
tracing-subscriber = { version = "0.3", features = ["env-filter"] }
