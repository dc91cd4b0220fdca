[package]
name = "obs_session"
version = "0.1.0"
edition = "2021"
publish = false

[dependencies]
obws = "*"
uuid = "*"
serde = { version = "*", features = ["derive"] }
serde_json = "*"
tokio = { version = "*", features = ["rt", "macros", "time", "sync"] }
tilepad-plugin-sdk = "*"
