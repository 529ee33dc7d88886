[package]
name = "bleep"
version = "0.1.0"
edition = "2021"
publish = false

[dependencies]
anyhow = "1"
chrono = { version = "0.4", default-features = false, features = ["clock"] }
dashmap = "5"
flume = "0.10"
futures = "0.3"
jsonwebtokens-cognito = "0.1"
notify-debouncer-mini = "0.2"
rand = "0.8"
reqwest = { version = "0.11", default-features = false }
scc = "2"
serde = { version = "1", features = ["derive"] }
serde_json = "1"
tokio = { version = "1", features = ["rt", "time", "macros"] }
tracing = "0.1"
