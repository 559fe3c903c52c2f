[package]
name = "skretchpad_core"
version = "0.1.0"
edition = "2021"
publish = false

[dependencies]
url = "2"
sha2 = "0.10"
ed25519-dalek = "2"
base64 = "0.22"
serde = { version = "1", features = ["derive"] }
serde_json = "1"
toml = "0.8"
notify = "*"
uuid = { version = "1", features = ["v4"] }
reqwest = { version = "0.12", default-features = false }
palette = "0.7"
