[package]
name = "dolos"
version = "0.1.0"
edition = "2021"
publish = false

[dependencies]
hex = "=0.4.3"
regex = "=1.13.1"
chrono = "=0.4.45"
serde = { version = "=1.0.229", features = ["derive"] }
serde_json = "=1.0.154"
thiserror = "=2.0.21"
pallas = { version = "=1.4.0", features = ["hardano"] }
