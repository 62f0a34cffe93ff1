[package]
name = "azure_prompt"
version = "0.1.0"
edition = "2021"
publish = false

[dependencies]
rust-ini = "0.17"
serde_json = "1"
serde = { version = "1", features = ["derive"] }
log = "0.4"

[dev-dependencies]
ansi_term = "0.12"
