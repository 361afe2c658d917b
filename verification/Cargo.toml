[package]
name = "apitest"
version = "0.1.0"
edition = "2021"
publish = false

[dependencies]
dropshot = "=0.17.1"
schemars = "=0.8.22"
serde = { version = "=1.0.229", features = ["derive"] }
serde_json = "=1.0.151"
tokio = { version = "=1.53.2", features = ["full"] }
