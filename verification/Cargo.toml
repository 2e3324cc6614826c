[package]
name = "pinboard"
version = "0.1.0"
edition = "2021"
publish = false

[dependencies]
regex = "=1.13.1"
serde = { version = "=1.0.229", features = ["derive"] }
serde_json = "=1.0.154"
reqwest = { version = "=0.12.28", default-features = false, features = ["blocking", "default-tls"] }
ggez = { version = "0.8", default-features = false }
cli-clipboard = "=0.4.0"
