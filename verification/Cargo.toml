[package]
name = "finance_query"
version = "0.1.0"
edition = "2021"
publish = false

[dependencies]
reqwest = { version = "0.12", default-features = false, features = ["rustls-tls", "cookies"] }
chrono = "0.4"
flate2 = "1"
regex = "1"
serde = { version = "1", features = ["derive"] }
serde_json = "1"
tokio = { version = "1", features = ["rt-multi-thread", "macros", "time", "sync"] }
async-stream = "0.3"
futures-util = "0.3"
once_cell = "1"
thiserror = "1"
tracing = "0.1"
url = "2"
