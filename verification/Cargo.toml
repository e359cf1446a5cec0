[package]
name = "mina_recorder"
version = "0.1.0"
edition = "2021"
publish = false

[dependencies]
blake2 = "0.10"
hex = "0.4"
serde = { version = "1", features = ["derive"] }
serde_json = "1"
