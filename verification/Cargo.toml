[package]
name = "agent_loop"
version = "0.1.0"
edition = "2021"
publish = false

[dependencies]
anthropic_rust = "*"
anyhow = "*"
dotenv = "*"
serde = { version = "*", features = ["derive"] }
serde_json = "*"
tokio = { version = "*", features = ["rt-multi-thread", "macros"] }
