[package]
name = "mongo_lock"
version = "0.1.0"
edition = "2021"
publish = false

[dependencies]
mongodb = { version = "2", features = ["tokio-sync"] }

[dev-dependencies]
rand = "0.8"
