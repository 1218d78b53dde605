[package]
name = "powersync"
version = "0.1.0"
edition = "2021"
publish = false

[dependencies]
async-channel = "=2.5.0"
futures-lite = "=2.6.1"
log = "=0.4.35"
powersync_sqlite_nostd = { version = "=0.5.2", features = ["static"] }
rusqlite = { version = "=0.39.0", features = ["bundled", "functions"] }
serde = { version = "=1.0.229", features = ["derive"] }
serde_json = { version = "=1.0.154", features = ["raw_value"] }
