[package]
name = "bdk_sqlite"
version = "0.1.0"
edition = "2021"
publish = false

[dependencies]
bitcoin = "0.27"
rusqlite = "0.25"
serde_json = "1"
log = "0.4"
