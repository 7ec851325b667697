[package]
name = "garage_ssh_gate"
version = "0.1.0"
edition = "2021"
publish = false

[dependencies]
ammonia = "4"
anyhow = "1"
async-trait = "0.1"
axum = "0.7"
base64 = "0.22"
chrono = { version = "0.4", features = ["serde"] }
fd-lock = "4"
hex = "0.4"
reqwest = { version = "0.12", default-features = false }
russh = "0.43"
russh-keys = "0.43"
serde = { version = "1", features = ["derive"] }
serde_json = "1"
sha2 = "0.10"
tokio = { version = "1", features = ["macros", "rt-multi-thread", "sync", "net", "time"] }
tracing = "0.1"
uuid = { version = "1", features = ["v4", "serde"] }
