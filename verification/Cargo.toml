[package]
name = "controlplane"
version = "0.1.0"
edition = "2021"
publish = false

[dependencies]
regex = "1"
serde = { version = "1", features = ["derive"] }
serde_json = "1"
uuid = { version = "1", features = ["v4", "serde"] }
thiserror = "1"
async-trait = "0.1"
axum = "0.7"
tokio = { version = "1", features = ["full"] }
tower-http = { version = "0.5", features = ["cors", "trace"] }
tracing = "0.1"
tracing-subscriber = { version = "0.3", features = ["env-filter", "json"] }
metrics = "0.23"
metrics-exporter-prometheus = { version = "0.15", default-features = false }
figment = { version = "0.10", features = ["toml", "env"] }
futures-util = "0.3"
parking_lot = "0.12"
rand = "0.8"
reqwest = { version = "0.12", default-features = false, features = ["json"] }
ort = { version = "2.0.0-rc.10", default-features = false, features = ["load-dynamic"] }
tokenizers = { version = "0.21", default-features = false, features = ["onig"] }
