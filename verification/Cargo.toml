[package]
name = "caching_client"
version = "0.1.0"
edition = "2021"
publish = false

[dependencies]
chrono = "0.4"
failure = "0.1"
reqwest = { version = "0.12", default-features = false, features = ["blocking"] }
rocksdb = { version = "*", default-features = false }
slog = "2"
