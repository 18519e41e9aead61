[package]
name = "discodo"
version = "0.1.0"
edition = "2021"
publish = false

[dependencies]
async-trait = "0.1"
parking_lot = "0.11"
reqwest = { version = "0.11", features = ["json"] }
serde = { version = "1", features = ["derive"] }
serde_json = "1"
serenity = "0.10"
tokio = { version = "1", features = ["rt", "macros"] }
tokio-tungstenite = "0.17"
url = "2"
