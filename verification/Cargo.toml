[package]
name = "rincon_client"
version = "0.1.0"
edition = "2021"
publish = false

[dependencies]
rincon_core = "=0.1.0"
serde = { version = "1", features = ["derive"] }
serde_json = "=1.0.154"
