[package]
name = "luxun_diary"
version = "0.1.0"
edition = "2021"
publish = false

[dependencies]
nostr-sdk = { version = "=0.42.0", features = ["nip59"] }
rand = "=0.8.8"
chrono = { version = "=0.4.45", features = ["serde"] }
hex = "=0.4.3"
futures = "=0.3.34"
serde = { version = "=1.0.229", features = ["derive"] }
serde_json = "=1.0.154"
rusqlite = { version = "=0.40.2", features = ["bundled"] }
directories = "=6.0.0"
once_cell = "=1.21.4"
uuid = { version = "=1.29.0", features = ["v4"] }
reqwest = "=0.12.28"
tracing = "=0.1.44"
