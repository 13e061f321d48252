[package]
name = "gridsim"
version = "0.1.0"
edition = "2021"
publish = false

[dependencies]
serde = { version = "=1.0.229", features = ["derive"] }
serde_json = "=1.0.151"
tokio = { version = "=1.53.2", features = ["full"] }
tokio-modbus = { version = "=0.17.0", features = ["tcp-server"] }
rusqlite = { version = "=0.40.2", features = ["bundled"] }
