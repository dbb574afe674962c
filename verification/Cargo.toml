[package]
name = "mcp_workflow"
version = "0.1.0"
edition = "2021"
publish = false

[dependencies]
chrono = "*"
uuid = { version = "*", features = ["v4"] }
serde = { version = "*", features = ["derive"] }
serde_json = "*"
tokio = { version = "*", features = ["macros", "rt-multi-thread", "sync", "io-std"] }
rmcp = { version = "*", features = ["server", "macros", "transport-io"] }
anyhow = "*"
tracing-subscriber = { version = "*", features = ["env-filter"] }
