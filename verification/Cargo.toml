[package]
name = "kg_rust"
version = "0.1.0"
edition = "2021"
publish = false

[dependencies]
anyhow = "1"
argon2 = "0.5"
async-trait = "0.1"
axum = "0.7"
base64 = "0.22"
bigdecimal = "0.3"
chrono = { version = "0.4", features = ["serde"] }
chrono-tz = "0.8"
clap = { version = "4", features = ["derive", "env"] }
dotenvy = "0.15"
env_logger = "0.11"
expo_push_notification_client = "*"
hex = "0.4"
hmac = "0.11"
image = { version = "0.24", default-features = false, features = ["jpeg", "png", "gif", "bmp", "webp"] }
jwt = "0.15"
log = "0.4"
rand = "0.8"
reqwest = { version = "0.11", default-features = false, features = ["json", "rustls-tls"] }
serde = { version = "1", features = ["derive"] }
serde_json = "1"
sha2 = "0.9"
sqlx = { version = "0.7", default-features = false, features = ["runtime-tokio", "postgres", "uuid", "chrono", "bigdecimal", "migrate"] }
tokio = { version = "1", features = ["full"] }
tower-http = { version = "0.5", features = ["catch-panic", "compression-gzip", "sensitive-headers", "timeout", "trace"] }
uuid = { version = "1", features = ["serde", "v4"] }
