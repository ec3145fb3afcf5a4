[package]
name = "voice_to_text_mcp"
version = "0.1.0"
edition = "2021"
publish = false

[dependencies]
anyhow = "1"
chrono = "0.4"
clap = { version = "4", features = ["derive"] }
cpal = "0.15"
gag = "1"
hound = "3.5"
rmcp = { version = "0.2.1", features = ["server", "macros", "transport-io"] }
schemars = "0.8"
serde = { version = "1", features = ["derive"] }
thiserror = "1"
tokio = { version = "1", features = ["full"] }
whisper-rs = "0.14"
