[package]
name = "edge_identity"
version = "0.1.0"
edition = "2021"
publish = false

[dependencies]
serde_json = "=1.0.154"
url = "=2.5.8"
rand = "=0.8.8"
serde = { version = "=1.0.229", features = ["derive"] }
actix-web = { version = "4", default-features = false }
futures = "0.3"
