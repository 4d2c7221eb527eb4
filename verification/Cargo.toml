[package]
name = "ai_critics"
version = "0.1.0"
edition = "2021"
publish = false

[dependencies]
serde_json = "=1.0.151"
async-openai = { version = "=0.42.1", features = ["chat-completion"] }
tokio = { version = "=1.53.2", features = ["macros", "rt-multi-thread", "time"] }
futures = "=0.3.34"
clap = { version = "=4.6.7", features = ["derive"] }
indicatif = "=0.18.6"
tempfile = "=3.27.0"
