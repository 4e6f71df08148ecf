[package]
name = "kea_server"
version = "0.1.0"
edition = "2021"
publish = false

[dependencies]
axum = { version = "=0.8.9", features = ["macros"] }
axum-extra = { version = "=0.10.3", features = ["cookie-private"] }
chrono = { version = "0.4", features = ["serde"] }
cookie = "=0.18.2"
derive-new = "0.7"
dotenvy = "0.15"
futures-util = "0.3"
git2 = { version = "0.21", default-features = false }
http = "=1.5.0"
jsonwebtoken = "9"
oauth2 = "=4.4.2"
octocrab = { version = "=0.43.0", features = ["stream"] }
secrecy = "0.10"
serde = { version = "1", features = ["derive"] }
serde_json = "=1.0.154"
thiserror = "2"
time = "=0.3.55"
tokio = { version = "1", features = ["full"] }
tower = { version = "0.5", features = ["util"] }
tower-http = { version = "0.6", features = ["catch-panic", "cors", "request-id", "sensitive-headers", "timeout", "trace"] }
tracing = "0.1"
utoipa = { version = "5", features = ["axum_extras", "chrono"] }
utoipa-axum = "0.2"
utoipa-swagger-ui = { version = "9", features = ["axum", "vendored"] }
uuid = { version = "1", features = ["v4"] }
