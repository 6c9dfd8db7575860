[package]
name = "apub_engine"
version = "0.1.0"
edition = "2021"
publish = false

[dependencies]
url = "2"
uuid = { version = "1", features = ["v4"] }
semver = "1"
chrono = { version = "0.4", default-features = false, features = ["clock", "std"] }
serde = { version = "1", features = ["derive"] }
serde_json = "1"
activitypub_federation = { version = "*", default-features = false }
async-trait = "0.1"
either = "1"
tracing = "0.1"
