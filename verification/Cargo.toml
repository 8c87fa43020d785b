[package]
name = "ncube"
version = "0.1.0"
edition = "2021"
publish = false

[dependencies]
url = "2"
rand = "0.7"
hyper = "0.13"
bytes = "0.5"
deadpool = "0.5"
rusqlite = { version = "0.23", features = ["bundled"] }
serde_rusqlite = "0.25"
serde = { version = "1", features = ["derive"] }
serde_json = "1"
async-trait = "0.1"
thiserror = "1"
tracing = "0.1"
