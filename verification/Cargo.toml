[package]
name = "active_campaign"
version = "0.1.0"
edition = "2021"
publish = false

[dependencies]
api-client-macro = "*"
dotenvy = "0.15"
paste = "1"
reqwest = { version = "0.12", default-features = false, features = ["blocking", "json"] }
serde = { version = "1", features = ["derive"] }
serde_json = "1"
thiserror = "1"
