[package]
name = "pg_agent_core"
version = "0.1.0"
edition = "2021"
publish = false

[dependencies]
anyhow = "1"
async-trait = "0.1"
bytes = "1"
chrono = { version = "=0.4.45", features = ["serde"] }
futures-core = "0.3"
futures-util = "0.3"
hyper-util = { version = "0.1", features = ["tokio"] }
regex = "=1.13.1"
rustls = { version = "=0.23.46", default-features = false, features = ["ring", "std", "tls12"] }
serde = { version = "1", features = ["derive"] }
serde_json = "1"
tokio = { version = "1", features = ["full"] }
tokio-rustls = { version = "=0.26.6", default-features = false, features = ["ring", "tls12"] }
tokio-stream = { version = "0.1", features = ["net"] }
tokio-util = { version = "0.7", features = ["io"] }
tonic = { version = "=0.12.3", features = ["tls"] }
tower = "0.5"
tracing = "0.1"
