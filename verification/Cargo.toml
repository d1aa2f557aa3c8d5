[package]
name = "mews_federation"
version = "0.1.0"
edition = "2021"
publish = false

[dependencies]
hdk = "=0.6.3"
holochain_serialized_bytes = "=0.0.57"
holo_hash = { version = "=0.6.3", features = ["encoding"] }
url = "=2.5.8"
serde = { version = "=1.0.228", features = ["derive"] }
serde_json = "=1.0.154"
rsa = "=0.9.10"
tokio = { version = "=1.54.1", features = ["sync"] }
async-trait = "=0.1.92"
tracing = "=0.1.44"
