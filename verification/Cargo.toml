[package]
name = "dummy_builder"
version = "0.1.0"
edition = "2021"
publish = false

[dependencies]
axum = { version = "0.6", features = ["headers"] }
blst = "0.3"
clap = { version = "4", features = ["derive"] }
eventsource-client = "0.11"
futures = "0.3"
lru = "0.12"
serde = { version = "1", features = ["derive"] }
serde_json = "1"
tokio = { version = "1", features = ["full"] }
tracing = "0.1"
tracing-subscriber = "0.3"
tree_hash = "0.5"
