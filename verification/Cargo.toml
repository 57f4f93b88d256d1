[package]
name = "agent_chain"
version = "0.1.0"
edition = "2021"
publish = false

[dependencies]
serde = { version = "1", features = ["derive"] }
serde_json = "1"
async-trait = "0.1"
log = "0.4"
thiserror = "1"
tokio = { version = "1", features = ["rt", "macros", "sync"] }
