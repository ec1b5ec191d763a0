[package]
name = "gha_github_service_proof"
version = "1.0.1"
edition = "2021"
publish = false

[dependencies]
anyhow = "1"
base64 = "0.22"
camino = "1"
chrono = { version = "0.4", features = ["serde"] }
clap = { version = "4", features = ["derive"] }
hmac = "0.12"
serde = { version = "1", features = ["derive"] }
serde_json = "1"
serde_yaml = "0.9"
sha2 = "0.10"
shell-words = "1"
