[package]
name = "auth_service"
version = "0.1.0"
edition = "2021"
publish = false

[dependencies]
uuid = { version = "=1.29.1", features = ["v4"] }
rand = "=0.9.5"
async-trait = "=0.1.92"
axum = "=0.8.9"
axum-extra = { version = "=0.10.3", features = ["cookie"] }
tokio = { version = "=1.54.1", features = ["full"] }
tower-http = { version = "=0.6.11", features = ["cors", "fs"] }
serde = { version = "=1.0.229", features = ["derive"] }
serde_json = "=1.0.154"
secrecy = { version = "=0.8.0", features = ["serde"] }
reqwest = { version = "=0.12.28", default-features = false, features = ["json"] }
color-eyre = "=0.6.5"
dotenvy = "=0.15.7"
lazy_static = "=1.5.1"
tracing = "=0.1.44"
sqlx = { version = "=0.8.6", default-features = false, features = ["postgres", "runtime-tokio", "migrate"] }
jsonwebtoken = { version = "10", default-features = false, features = ["rust_crypto"] }
