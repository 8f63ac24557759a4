[package]
name = "insight_v3_core"
version = "0.1.0"
edition = "2021"
publish = false

[dependencies]
anyhow = "=1.0.104"
axum = "=0.8.9"
chrono = { version = "=0.4.45", default-features = false, features = ["clock", "std"] }
clap = { version = "=4.6.7", features = ["derive"] }
clickhouse = { version = "=0.15.3", features = ["uuid", "chrono"] }
secrecy = { version = "=0.10.3", features = ["serde"] }
serde = { version = "=1.0.229", features = ["derive"] }
serde_json = "=1.0.154"
serde_yaml = "=0.9.34"
sha2 = "=0.10.9"
subtle = "=2.6.1"
thiserror = "=2.0.21"
tokio = { version = "=1.54.1", features = ["sync", "time", "rt", "rt-multi-thread", "macros", "net", "signal"] }
tracing = "=0.1.44"
tracing-subscriber = "=0.3.23"
utoipa = "=5.5.0"
uuid = { version = "=1.29.0", features = ["v7"] }
