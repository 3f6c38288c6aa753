[package]
name = "result_processor"
version = "0.1.0"
edition = "2021"
publish = false

[dependencies]
serde = { version = "1", features = ["derive"] }
serde_json = { version = "1", features = ["raw_value"] }
uuid = { version = "1", features = ["serde"] }
tokio = { version = "1", features = ["sync", "rt", "macros", "time"] }
tracing = "0.1"
chrono = { version = "0.4", features = ["serde"] }
sql-builder = "3"
sqlx = { version = "0.8", default-features = false, features = ["postgres", "runtime-tokio", "json", "uuid", "chrono"] }
axum = "0.7"
hyper = "1"
opentelemetry = "*"
