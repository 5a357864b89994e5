[package]
name = "snop_cockpit_be"
version = "0.1.0"
edition = "2021"
publish = false

[dependencies]
actix-web = "4"
anyhow = "1"
async-stream = "0.3"
chrono = { version = "0.4", features = ["serde"] }
deadpool = "0.12"
dotenvy = "0.15"
futures = "0.3"
serde = { version = "1", features = ["derive"] }
serde_json = "1"
sqlx = { version = "0.8", default-features = false, features = ["runtime-tokio", "mysql", "chrono", "derive"] }
time = { version = "0.3", features = ["macros", "formatting"] }
tokio = { version = "1", features = ["macros", "rt-multi-thread"] }
tracing = "0.1"
tracing-actix-web = "0.7"
tracing-log = "0.2"
tracing-subscriber = { version = "0.3", features = ["env-filter", "time", "fmt"] }
uuid = { version = "1", features = ["v4"] }
