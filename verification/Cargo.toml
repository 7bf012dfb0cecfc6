[package]
name = "cataclysm_manager"
version = "0.1.0"
edition = "2021"
publish = false

[dependencies]
anyhow = "1"
app_dirs2 = "=2.5.5"
bytes = "1"
chrono = { version = "=0.4.45", features = ["serde"] }
clap = "=4.6.7"
hyper = { version = "=0.14.32", features = ["full"] }
serde = { version = "1", features = ["derive"] }
serde_json = "=1.0.151"
tokio = { version = "1", features = ["full"] }
tracing = "0.1"
tracing-subscriber = { version = "0.3", features = ["env-filter", "fmt"] }
