[package]
name = "qdengine"
version = "0.1.0"
edition = "2021"
publish = false

[dependencies]
rand = "=0.9.5"
axum = { version = "=0.8.9", features = ["ws"] }
futures = "=0.3.34"
serde = { version = "=1.0.229", features = ["derive"] }
serde_json = "=1.0.154"
serde_repr = "=0.1.21"
tokio = { version = "=1.54.1", features = ["full"] }
tracing = "=0.1.44"
tracing-subscriber = "=0.3.23"
websocket-lite = "=0.5.2"
