[package]
name = "message"
version = "0.1.0"
edition = "2021"
publish = false

[dependencies]
anyhow = "*"
charybdis = "*"
chrono = "*"
dotenv = "*"
prost = "0.13"
scylla = "*"
serde = { version = "*", features = ["derive"] }
serde_json = "*"
thiserror = "*"
tokio = { version = "*", features = ["macros", "rt-multi-thread", "sync"] }
tonic = "0.12"
tonic-reflection = "0.12"
tracing = "*"
uuid = { version = "*", features = ["v1", "rng"] }
validator = { version = "*", features = ["derive"] }
