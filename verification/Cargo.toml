[package]
name = "keybase_bot_api"
version = "0.1.0"
edition = "2021"
publish = false

[dependencies]
hex = "*"
rand = "*"
serde = { version = "*", features = ["derive"] }
serde_json = "*"
async-std = "*"
keybase-protocol = "*"
