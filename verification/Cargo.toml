[package]
name = "rust_ci"
version = "0.1.0"
edition = "2021"
publish = false

[dependencies]
argon2 = { version = "0.5", features = ["std"] }
uuid = { version = "1", features = ["v4"] }
anyhow = "1"
askama = "0.12"
askama_axum = "0.4"
axum = "0.7"
chrono = "0.4"
serde = { version = "1", features = ["derive"] }
sqlx = { version = "0.8", default-features = false, features = ["runtime-tokio", "sqlite", "chrono", "derive"] }
time = "0.3"
tokio = { version = "1", features = ["full"] }
tower-sessions = "0.13"
tower-sessions-sqlx-store = { version = "0.13", features = ["sqlite"] }
tracing = "0.1"
tracing-subscriber = { version = "0.3", features = ["env-filter"] }
