[package]
name = "zk_dtp"
version = "0.1.0"
edition = "2021"
publish = false

[dependencies]
axum = "0.7"
ciborium = "0.2"
hex = "0.4"
hyper = "1"
risc0-zkvm = { version = "*", default-features = false, features = ["client"] }
serde = { version = "1", features = ["derive"] }
serde_json = "1"
tokio = { version = "1", features = ["full"] }
tower-http = { version = "*", features = ["cors"] }
