[package]
name = "sfo_sql"
version = "0.1.0"
edition = "2021"
publish = false

[dependencies]
sqlx = { version = "0.8", default-features = false, features = ["sqlite", "mysql", "runtime-tokio"] }
log = "0.4"
