[package]
name = "chat_router"
version = "0.1.0"
edition = "2021"
publish = false

[dependencies]
lru = "0.10"
tokio = { version = "1", features = ["full"] }
serde = { version = "1", features = ["derive"] }
serde_json = "1"
uuid = { version = "1", features = ["v4", "serde"] }
time = { version = "0.3", features = ["serde"] }
axum = { version = "0.6", features = ["ws"] }
hyper = "0.14"
futures = "0.3"
tower-http = { version = "0.4", features = ["cors", "trace"] }
tracing = "0.1"
tracing-subscriber = { version = "0.3", features = ["env-filter"] }
dotenvy = "0.15"
sqlx = { version = "0.6", features = ["postgres", "runtime-tokio-rustls", "time"] }
