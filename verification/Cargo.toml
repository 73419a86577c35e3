[package]
name = "fileshare"
version = "0.1.0"
edition = "2021"
publish = false

[dependencies]
anyhow = "=1.0.104"
axum = { version = "=0.6.20", features = ["macros", "multipart"] }
chrono = { version = "=0.4.45", features = ["serde"] }
dotenv = "=0.15.0"
lazy_static = "=1.5.1"
leptos = { version = "=0.4.10", features = ["ssr"] }
load_file = "=1.0.1"
md5 = "=0.7.0"
rand = "=0.8.8"
serde = { version = "=1.0.229", features = ["derive"] }
serde_json = "=1.0.154"
sqlx = { version = "=0.7.4", default-features = false, features = ["runtime-tokio", "postgres", "chrono", "macros"] }
tokio = { version = "=1.54.1", features = ["full"] }
tokio-util = { version = "=0.7.20", features = ["io"] }
tower = { version = "=0.4.13", features = ["full"] }
tower-http = { version = "=0.4.4", features = ["cors", "fs", "trace"] }
tracing = "=0.1.44"
tracing-subscriber = { version = "=0.3.23", features = ["env-filter"] }
