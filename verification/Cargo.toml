[package]
name = "prompts"
version = "0.1.0"
edition = "2021"

[dependencies]
async-trait = "0.1"
crossterm = { version = "0.26", features = ["event-stream"] }
futures = "0.3"
