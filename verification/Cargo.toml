[package]
name = "bulk_read"
version = "0.1.0"
edition = "2021"
publish = false

[dependencies]
serde = { version = "*", features = ["derive"] }
serde_json = "*"
sqlx = { version = "*", features = ["runtime-tokio", "postgres", "chrono", "json"], default-features = false }
log = "*"
warp = "*"

[dev-dependencies]
csv = "*"
