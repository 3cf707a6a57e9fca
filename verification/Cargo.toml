[package]
name = "rustbricks"
version = "0.1.0"
edition = "2021"
publish = false

[dependencies]
serde_json = "1"
chrono = "0.4"
reqwest = { version = "0.12", default-features = false, features = ["native-tls"] }
tokio = { version = "1", features = ["rt-multi-thread", "macros"] }
