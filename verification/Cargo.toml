[package]
name = "rustplatform"
version = "0.1.0"
edition = "2021"
publish = false

[dependencies]
mongodb = "2"
serde = { version = "1", features = ["derive"] }
serde_json = "1"
futures-util = "0.3"
actix-web = "4"
chrono = "0.4"
rocket = { version = "0.5", features = ["json"] }
