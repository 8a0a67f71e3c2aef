[package]
name = "service_demos"
version = "0.1.0"
edition = "2021"
publish = false

[dependencies]
async-graphql = "=7.2.1"
chrono = "=0.4.45"
reqwest = { version = "=0.13.5", features = ["json"] }
rustapi-rs = { version = "=0.2.2", features = ["cors", "rate-limit", "view"] }
serde = { version = "=1.0.229", features = ["derive"] }
serde_json = "=1.0.154"
tokio = { version = "=1.54.1", features = ["full"] }
tracing = "=0.1.44"
tracing-subscriber = { version = "=0.3.23", features = ["env-filter"] }
