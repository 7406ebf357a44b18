[package]
name = "study_sync"
version = "0.1.0"
edition = "2021"
publish = false

[dependencies]
anyhow = "*"
axum = "*"
clap = { version = "*", features = ["derive"] }
futures = "*"
hex = "*"
notify = "*"
reqwest = { version = "*", default-features = false, features = ["json", "stream"] }
rusqlite = { version = "*", features = ["bundled"] }
serde = { version = "*", features = ["derive"] }
serde_json = "*"
sha1 = "*"
tokio = { version = "*", features = ["full"] }
tokio-rusqlite = "*"
tokio-util = { version = "*", features = ["codec"] }
tower-http = { version = "*", features = ["trace"] }
tracing = "*"
tracing-subscriber = { version = "*", features = ["env-filter"] }
walkdir = "*"
