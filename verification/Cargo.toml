[package]
name = "octos_makepad"
version = "0.1.0"
edition = "2021"
publish = false

[dependencies]
agent-client-protocol = "*"
async-trait = "0.1"
axum = { version = "*", features = ["ws"] }
chrono = "0.4"
eyre = "0.6"
futures = "0.3"
libc = "0.2"
makepad-widgets = "*"
serde = { version = "1", features = ["derive"] }
serde_json = { version = "1", features = ["preserve_order"] }
tokio = { version = "1", features = ["full"] }
tokio-tungstenite = "*"
tracing = "0.1"
