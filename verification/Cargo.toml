[package]
name = "opendog"
version = "0.1.0"
edition = "2021"
publish = false

[dependencies]
serde = { version = "1", features = ["derive"] }
serde_json = "1"
rmcp = { version = "*", features = ["server"] }
tokio = { version = "1", features = ["rt", "io-std", "macros"] }
