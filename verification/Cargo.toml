[package]
name = "postfeed"
version = "0.1.0"
edition = "2021"
publish = false

[dependencies]
axum = "0.8"
axum_typed_multipart = "*"
reqwest = { version = "0.12", default-features = false }
sqlx = { version = "0.8", default-features = false, features = ["runtime-tokio", "sqlite"] }
tokio = { version = "1", features = ["macros", "rt-multi-thread", "fs", "net"] }
tower-http = { version = "0.6", features = ["fs", "trace"] }
tower-sessions = "*"
tracing = "0.1"
tracing-subscriber = "0.3"

[dev-dependencies]
regex = "1"
