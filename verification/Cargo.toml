[package]
name = "stx_settlement"
version = "0.1.0"
edition = "2021"
publish = false

[dependencies]
rusqlite = { version = "0.16.0", features = ["bundled"] }
