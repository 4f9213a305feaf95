[package]
name = "dns_record_update"
version = "0.1.0"
edition = "2021"
publish = false

[dependencies]
chrono = "=0.4.45"
cloudflare = "=0.14.0"
env_logger = "=0.11.11"
futures-util = "=0.3.34"
log = "=0.4.34"
opentelemetry = "=0.23.0"
opentelemetry-jaeger = "=0.22.0"
opentelemetry_sdk = "=0.23.0"
rsdns = { version = "=0.23.0", features = ["net-tokio"] }
serde = { version = "=1.0.229", features = ["derive"] }
serde_json = "=1.0.154"
tokio = { version = "=1.54.1", features = ["rt", "net", "time"] }
vaultrs = "=0.8.0"
