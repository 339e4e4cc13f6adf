[package]
name = "apub_federation"
version = "0.1.0"
edition = "2021"
publish = false

[dependencies]
activitystreams = "0.6.2"
activitystreams-ext = "0.1.0-alpha.3"
actix-web = { version = "4", default-features = false }
async-trait = "0.1"
chrono = "0.4"
serde = { version = "1", features = ["derive"] }
serde_json = "1"
url = "2"
uuid = { version = "1", features = ["v4"] }
