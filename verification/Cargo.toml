[package]
name = "web_demo"
version = "0.1.0"
edition = "2021"
publish = false

[dependencies]
axum = "=0.8.9"
tokio = { version = "=1.54.1", features = ["full"] }
tower = "=0.5.3"
tower-http = { version = "=0.6.11", features = ["compression-gzip", "trace"] }
http-body-util = "=0.1.5"
serde = { version = "=1.0.229", features = ["derive"] }
serde_json = { version = "=1.0.154", features = ["preserve_order"] }
tracing = "=0.1.44"
tracing-subscriber = { version = "=0.3.23", features = ["env-filter"] }
tracing-appender = "=0.2.5"
chrono = "=0.4.45"
uuid = { version = "=1.29.1", features = ["v4"] }
bcrypt = "=0.19.3"
rand = "=0.8.8"
regex = "=1.13.1"
percent-encoding = "=2.3.2"
jsonwebtoken = "=9.3.1"
sea-orm = { version = "=1.1.20", default-features = false, features = ["sqlx-postgres", "runtime-tokio-rustls", "macros", "with-chrono"] }
redis = { version = "=1.8.1", features = ["tokio-comp", "connection-manager"] }
reqwest = { version = "=0.12.28", default-features = false, features = ["json", "rustls-tls"] }
oauth2 = { version = "=4.4.2", default-features = false, features = ["reqwest", "rustls-tls"] }
utoipa = "=5.5.0"
utoipa-scalar = { version = "=0.4.0", features = ["axum"] }
config = { version = "=0.15.27", default-features = false, features = ["toml"] }
