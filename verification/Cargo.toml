[package]
name = "mcp_counter"
version = "0.1.0"
edition = "2021"
publish = false

[dependencies]
rmcp = { version = "0.3", features = ["server", "macros", "transport-io"] }
tokio = { version = "1", features = ["macros", "rt-multi-thread", "sync", "io-std"] }
