[package]
name = "chain_projection"
version = "0.1.0"
edition = "2021"
publish = false

[dependencies]
num-bigint = "0.4"
bigdecimal = "0.3"
anyhow = "1"
serde = { version = "1", features = ["derive"] }
serde_json = "1"
base64 = "0.22"
chrono = { version = "0.4", default-features = false, features = ["clock", "serde"] }
tokio = { version = "1", features = ["rt-multi-thread", "macros", "net"] }
axum = "0.7"
sqlx = { version = "0.7", default-features = false, features = ["postgres", "runtime-tokio", "bigdecimal", "chrono"] }
clap = { version = "4", features = ["derive"] }
minijinja = "1"
tower-http = { version = "0.5", features = ["trace"] }
tracing = "0.1"
tracing-subscriber = { version = "0.3", features = ["env-filter"] }
include_dir = "0.7"
serde_with = "3"
