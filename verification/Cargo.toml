[package]
name = "kartklickare"
version = "0.1.0"
edition = "2021"
publish = false

[dependencies]
serde_json = "1"
rand = "0.9"
tokio = { version = "1", features = ["sync", "time", "rt"] }
discord-rich-presence = "*"
once_cell = "1"
