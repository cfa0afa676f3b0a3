[package]
name = "tool_orchestrator"
version = "0.1.0"
edition = "2021"
publish = false

[dependencies]
rhai = "*"
serde_json = "*"
