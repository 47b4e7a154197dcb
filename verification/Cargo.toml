[package]
name = "sentinel"
version = "0.1.0"
edition = "2021"
publish = false

[dependencies]
poise = "0.6"
futures-util = "0.3"
regex = "1"
rusqlite = { version = "*", features = ["bundled"] }
serde = { version = "1", features = ["derive"] }
serde_json = "1"
tokio = { version = "1", features = ["macros", "rt-multi-thread"] }
toml = "*"
uuid = { version = "1", features = ["v4"] }
