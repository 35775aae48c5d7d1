[package]
name = "sunminimart"
version = "0.1.0"
edition = "2021"
publish = false

[dependencies]
chrono = { version = "=0.4.45", default-features = false, features = ["std", "serde"] }
rust_decimal = { version = "=1.43.0", default-features = false, features = ["std", "serde"] }
serde = { version = "=1.0.229", features = ["derive"] }
serde_json = "=1.0.154"
iced = { version = "=0.13.1", default-features = false, features = ["tokio", "advanced"] }
reqwest = { version = "=0.12.28", default-features = false }
tokio = { version = "=1.54.1", features = ["rt-multi-thread", "macros", "net", "sync"] }
axum = { version = "=0.8.9", default-features = false, features = ["json", "tokio", "http1"] }
dotenv = "=0.15.0"
futures = { version = "=0.3.34", default-features = false, features = ["std"] }
