[package]
name = "unique_api"
version = "0.1.0"
edition = "2021"
publish = false

[dependencies]
axum = "0.8"
chrono = { version = "0.4", features = ["serde"] }
dotenvy = "0.15"
futures = "0.3"
hex = "0.4"
sea-orm = { version = "1", default-features = false, features = ["macros", "runtime-tokio", "sqlx-mysql", "with-chrono", "with-json"] }
serde = { version = "1", features = ["derive"] }
serde_json = "1"
sha2 = "0.10"
tokio = { version = "1", features = ["macros", "rt-multi-thread", "net"] }
ulid = "1"
utoipa = { version = "5", features = ["chrono"] }
uuid = { version = "1", features = ["v4"] }
