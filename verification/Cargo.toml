[package]
name = "godot_mcp"
version = "0.1.0"
edition = "2021"
publish = false

[dependencies]
reqwest = { version = "*", default-features = false, features = ["json"] }
rmcp = { version = "*", features = ["server", "transport-io"] }
serde_json = "*"
tokio = { version = "*", features = ["full"] }
