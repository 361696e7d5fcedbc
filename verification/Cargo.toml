[package]
name = "camino_import"
version = "0.1.0"
edition = "2021"
publish = false

[dependencies]
chrono = { version = "=0.4.45", default-features = false, features = ["alloc", "serde"] }
serde = { version = "=1.0.229", features = ["derive"] }
serde_json = "=1.0.151"
sea-orm = { version = "=1.1.20", default-features = false, features = ["macros", "sqlx-postgres", "runtime-tokio-rustls", "with-chrono"] }
tokio = { version = "=1.53.2", features = ["rt-multi-thread", "macros"] }
