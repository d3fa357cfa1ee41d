[package]
name = "specs_v"
version = "0.1.0"
edition = "2021"
publish = false

[dependencies]
axum = "=0.8.9"
rmcp = { version = "=3.8.0", features = ["server", "transport-io", "macros"] }
rusqlite = { version = "=0.41.1", features = ["bundled"] }
schemars = "=1.2.3"
serde = { version = "=1.0.229", features = ["derive"] }
serde_json = { version = "=1.0.154", features = ["preserve_order"] }
tokio = { version = "=1.54.1", features = ["full"] }
tower-http = { version = "=0.6.11", features = ["trace", "request-id"] }
tracing = "=0.1.44"
tracing-subscriber = { version = "=0.3.23", features = ["env-filter"] }
