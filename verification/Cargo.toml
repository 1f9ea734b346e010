[package]
name = "ink_receipts"
version = "0.1.0"
edition = "2021"
publish = false

[dependencies]
sha2 = "=0.10.9"
ed25519-dalek = "=2.2.0"
base64ct = { version = "=1.8.3", features = ["alloc"] }
serde = { version = "=1.0.229", features = ["derive"] }
serde_json = "=1.0.154"
hex = "=0.4.3"
mime_guess = "=2.0.5"
chrono = "=0.4.45"
uuid = { version = "=1.29.1", features = ["v4"] }
rand = "=0.9.5"
dirs = "=6.0.0"
clap = { version = "=4.6.7", features = ["derive"] }
reqwest = { version = "0.12", default-features = false, features = ["blocking", "json"] }
ratatui = "0.29"
crossterm = "0.28"
