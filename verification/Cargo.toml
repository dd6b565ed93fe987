[package]
name = "shortener"
version = "0.1.0"
edition = "2021"
publish = false

[dependencies]
axum = "*"
base64 = "0.22"
dotenvy = "*"
rand = "0.8"
serde = { version = "*", features = ["derive"] }
sqlx = { version = "*", features = ["runtime-tokio", "postgres"] }
tokio = { version = "*", features = ["full"] }
tracing = "*"
tracing-subscriber = { version = "*", features = ["env-filter"] }
url = "2"
