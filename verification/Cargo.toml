[package]
name = "termcall"
version = "0.1.0"
edition = "2021"
publish = false

[dependencies]
anyhow = "1"
bytes = "1"
crossterm = "0.27"
firebase-rs = "*"
opencv = "*"
ratatui = "0.26"
serde = { version = "1", features = ["derive"] }
serde_json = "1"
simple-log = "*"
tokio = { version = "1", features = ["full"] }
webrtc = "0.11"
