[package]
name = "voice_session"
version = "0.1.0"
edition = "2021"
publish = false

[dependencies]
anyhow = "1"
cpal = "0.15"
dioxus = { version = "0.4", default-features = false, features = ["macro", "html", "hooks"] }
futures = "0.3"
futures-util = "0.3"
rand = "0.8"
serde = { version = "1", features = ["derive"] }
serde_json = { version = "1", features = ["preserve_order"] }
tokio = { version = "1", features = ["sync", "rt-multi-thread", "macros", "time", "net"] }
tokio-tungstenite = "0.20"
