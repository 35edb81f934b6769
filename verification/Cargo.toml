[package]
name = "cms_records"
version = "0.1.0"
edition = "2021"
publish = false

[dependencies]
serde = { version = "1", features = ["derive"] }
surrealdb = { version = "1", default-features = false }
validator = { version = "0.16", features = ["derive"] }
