[package]
name = "eform"
version = "0.1.0"
edition = "2021"
publish = false

[dependencies]
bson = "2"
chrono = "0.4"
jsonwebtoken = "9"
mongodb = "2"
regex = "1"
serde = { version = "1", features = ["derive"] }
serde_json = "1"
sha2 = "0.10"
tokio = { version = "1", features = ["rt-multi-thread", "macros", "sync"] }
