[package]
name = "kiln"
version = "0.1.0"
edition = "2021"
publish = false

[dependencies]
rusqlite = { version = "=0.41.0", features = ["fallible_uint"] }
serde = { version = "=1.0.229", features = ["derive"] }
chrono = "=0.4.45"
clap = { version = "=4.6.7", features = ["derive"] }
