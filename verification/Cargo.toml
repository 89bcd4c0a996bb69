[package]
name = "discordlist"
version = "0.1.0"
edition = "2021"
publish = false

[dependencies]
reqwest = { version = "=0.11.27", features = ["json"] }
serde_json = "=1.0.154"
url = "=2.5.8"
