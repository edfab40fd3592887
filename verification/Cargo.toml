[package]
name = "speak_notes"
version = "0.1.0"
edition = "2021"
publish = false

[dependencies]
serde_json = "1"
url = "2"
serde = { version = "1", features = ["derive"] }
reqwest = { version = "0.11", default-features = false, features = ["json"] }
tokio-tungstenite = "0.20"
futures-util = "0.3"
dioxus = "0.4"
