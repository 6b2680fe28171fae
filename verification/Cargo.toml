[package]
name = "token_store"
version = "0.1.0"
edition = "2021"
publish = false

[dependencies]
rusqlite = { version = "*", features = ["bundled"] }
r2d2 = "*"
sqlx = { version = "*", default-features = false }
rand = "*"
