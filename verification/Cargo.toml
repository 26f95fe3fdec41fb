[package]
name = "orphic"
version = "0.1.0"
edition = "2021"
publish = false

[dependencies]
serde_json = "=1.0.151"
async-openai = { version = "=0.42.1", features = ["chat-completion"] }
clap = "=4.6.7"
execute = "=0.3.0"
tokio = { version = "=1.53.2", features = ["macros", "rt-multi-thread"] }
