[package]
name = "bookmark_sync"
version = "0.1.0"
edition = "2021"
publish = false

[dependencies]
dogear = "=0.2.6"
rusqlite = { version = "=0.23.1", features = ["bundled"] }
failure = "=0.1.8"
log = "=0.4.34"
url = "=2.5.8"
serde_json = "=1.0.154"
