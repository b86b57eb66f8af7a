[package]
name = "oxidegate"
version = "0.1.0"
edition = "2021"
publish = false

[dependencies]
anyhow = "*"
axum = "*"
clap = { version = "*", features = ["derive"] }
futures-util = "*"
hdrhistogram = "*"
metrics = "*"
metrics-exporter-prometheus = { version = "*", default-features = false }
reqwest = { version = "*", default-features = false, features = ["json", "stream"] }
serde = { version = "*", features = ["derive"] }
serde_json = "*"
thiserror = "*"
tokio = { version = "*", features = ["macros", "rt-multi-thread", "net", "time", "sync"] }
tracing = "*"
tracing-subscriber = "*"
