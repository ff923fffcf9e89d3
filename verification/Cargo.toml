[package]
name = "bloom_bot"
version = "0.1.0"
edition = "2021"
publish = false

[dependencies]
chrono = { version = "=0.4.45", default-features = false, features = ["std", "alloc", "clock", "serde"] }
ulid = "=1.2.1"
csv = "=1.4.0"
serde = { version = "=1.0.229", features = ["derive"] }
serde_json = "=1.0.154"
anyhow = "=1.0.104"
indexmap = "2"
rand = "=0.9.5"
