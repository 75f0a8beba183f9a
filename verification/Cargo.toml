[package]
name = "geos"
version = "0.1.0"
edition = "2021"
publish = false

[dependencies]
argon2 = "0.5"
axum = { version = "=0.8.9", features = ["ws", "macros"] }
bytes = "=1.12.1"
chrono = { version = "=0.4.45", features = ["serde"] }
futures-util = { version = "=0.3.34", features = ["sink"] }
hex = "=0.4.3"
http = "=1.5.0"
jsonwebtoken = "=9.3.1"
meilisearch-sdk = "=0.28.0"
reqwest = { version = "=0.12.28", default-features = false, features = ["rustls-tls"] }
schemars = { version = "=0.8.22", features = ["chrono", "uuid1"] }
serde = { version = "=1.0.229", features = ["derive"] }
serde_json = "=1.0.154"
sha2 = "=0.10.9"
sqlx = { version = "=0.8.6", default-features = false, features = ["runtime-tokio", "postgres", "uuid", "chrono", "json", "migrate", "macros"] }
thiserror = "=2.0.21"
tokio = { version = "=1.54.1", features = ["full"] }
tower-http = { version = "=0.6.11", features = ["cors", "trace"] }
tracing = "=0.1.44"
tracing-subscriber = { version = "=0.3.23", features = ["env-filter"] }
uuid = { version = "=1.29.0", features = ["v4", "serde"] }
