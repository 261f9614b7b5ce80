[package]
name = "manifold_markets"
version = "0.1.0"
edition = "2021"
publish = false

[dependencies]
chrono = "0.4"
futures-util = "0.3"
reqwest = { version = "0.11", features = ["json"] }
serde = { version = "1", features = ["derive"] }
serde_json = "1"
thiserror = "1"
