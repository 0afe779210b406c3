[package]
name = "api"
version = "0.1.0"
edition = "2021"
publish = false

[dependencies]
chrono = "0.4"
axum = "*"
tokio = { version = "*", features = ["full"] }
reqwest = "*"
serde = { version = "*", features = ["derive"] }
uuid = { version = "*", features = ["v4", "serde"] }
sea-orm = "*"
sea-orm-migration = "*"
async-trait = "*"
tower-http = { version = "*", features = ["trace"] }
tracing-subscriber = { version = "*", features = ["env-filter"] }
log = "*"
