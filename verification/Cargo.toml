[package]
name = "hubitat_exporter"
version = "0.1.0"
edition = "2021"
publish = false

[dependencies]
anyhow = "1"
chrono = "0.4"
clap = { version = "3", features = ["env"] }
convert_case = "0.6"
env_logger = "0.10"
log = "0.4"
reqwest = { version = "0.11", features = ["blocking", "json", "cookies"] }
serde = { version = "1", features = ["derive"] }
serde_json = "1"
tiny_http = "0.12"
