[package]
name = "sqlx-store"
version = "0.1.0"
edition = "2021"
publish = false

[dependencies]
chrono = "=0.4.45"
rmp-serde = "=1.3.1"
sqlx = { version = "=0.8.6", default-features = false }
thiserror = "=1.0.69"
time = "=0.3.55"
tower-sessions-core = "=0.15.0"

[dev-dependencies]
time = { version = "=0.3.55", features = ["large-dates"] }
