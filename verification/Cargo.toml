[package]
name = "moscow_deg_postgres_ingest"
version = "0.1.0"
edition = "2021"
publish = false

[dependencies]
serde_json = "=1.0.151"
serde = { version = "*", features = ["derive"] }
clap = { version = "*", features = ["derive"] }
env_logger = "*"
glob = "*"
log = "*"
native-tls = "*"
postgres-native-tls = "*"
tokio = { version = "*", features = ["rt-multi-thread", "macros", "fs", "io-util"] }
tokio-postgres = { version = "*", features = ["with-serde_json-1"] }
async-channel = "*"
