[package]
name = "alexandria"
version = "0.1.0"
edition = "2021"
publish = false

[dependencies]
crc32fast = "1"
serde = { version = "1", features = ["derive"] }
serde_json = "1"
epub = "1"
pandoc = "0.8"
log = "0.4"
env_logger = "0.10"
bytes = "1"
tokio = { version = "1", features = ["macros", "rt-multi-thread"] }
reqwest = "0.11"
font-kit = "0.11"
async-openai = "0.18"
axum = "0.6"
tower-http = { version = "0.4", features = ["cors", "fs"] }
