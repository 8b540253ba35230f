[package]
name = "genai_types"
version = "0.1.0"
edition = "2021"
publish = false

[dependencies]
mcp-protocol = "*"
serde = { version = "1", features = ["derive"] }
serde_json = "1"
