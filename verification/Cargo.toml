[package]
name = "cadastro_api"
version = "0.1.0"
edition = "2021"
publish = false

[dependencies]
uuid = { version = "1", features = ["v4", "serde"] }
chrono = { version = "0.4", features = ["serde"] }
serde = { version = "1", features = ["derive"] }
serde_json = "1"
tokio = { version = "1", features = ["full"] }
axum = "0.7"
utoipa = "4"
utoipa-swagger-ui = { version = "7", features = ["axum", "vendored"] }
tower_governor = "0.4"
governor = "0.6"
tracing = "0.1"
tracing-subscriber = "0.3"
dotenvy = "0.15"
thiserror = "1"
bcrypt = "0.15"
jsonwebtoken = "9"
