[package]
name = "vardy"
version = "0.1.0"
edition = "2021"
publish = false

[dependencies]
sha2 = "=0.10.9"
chrono = { version = "=0.4.45", default-features = false, features = ["clock", "std"] }
axum = "=0.8.9"
tokio = { version = "=1.54.1", features = ["full"] }
reqwest = { version = "=0.12.28", default-features = false, features = ["json", "rustls-tls"] }
sqlx = { version = "=0.8.6", default-features = false, features = ["sqlite", "runtime-tokio", "migrate"] }
minijinja = { version = "=2.24.0", features = ["loader"] }
prometheus = { version = "=0.14.0", default-features = false }
serde = { version = "=1.0.229", features = ["derive"] }
serde_json = "=1.0.154"
governor = "=0.10.4"
tower_governor = { version = "=0.8.0", features = ["axum"] }
tower-http = { version = "=0.6.11", features = ["fs", "set-header", "trace"] }
tracing = "=0.1.44"
tracing-subscriber = { version = "=0.3.23", features = ["json", "env-filter"] }
sentry = { version = "=0.49.5", default-features = false, features = ["backtrace", "contexts", "panic", "ureq", "rustls"] }
