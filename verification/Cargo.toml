[package]
name = "earnings_watch"
version = "0.1.0"
edition = "2021"
publish = false

[dependencies]
rand = "=0.8.8"
chrono = { version = "=0.4.45", features = ["serde"] }
rust_xlsxwriter = "=0.102.0"
uuid = { version = "=1.29.1", features = ["v4", "serde"] }
serde = { version = "=1.0.229", features = ["derive"] }
serde_json = "=1.0.154"
axum = "=0.7.9"
axum-extra = { version = "=0.9.6", features = ["cookie"] }
time = "=0.3.55"
tracing = "=0.1.44"
async-trait = "=0.1.92"
reqwest = { version = "=0.12.28", default-features = false, features = ["json"] }
