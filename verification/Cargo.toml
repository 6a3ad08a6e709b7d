[package]
name = "swayipc_core"
version = "0.1.0"
edition = "2021"
publish = false

[dependencies]
anyhow = "=1.0.104"
serde = "=1.0.229"
serde_json = "=1.0.154"
