[package]
name = "know_it_all_bot"
version = "0.1.0"
edition = "2021"
publish = false

[dependencies]
uuid = { version = "=1.27.0", features = ["v4"] }
teloxide = { version = "=0.17.0", features = ["macros"] }
takecell = "=0.1.1"
tokio = { version = "=1.53.2", features = ["full"] }
async-openai = { version = "=0.42.1", features = ["chat-completion"] }
dotenv = "=0.15.0"
tracing = "=0.1.44"
tracing-subscriber = "=0.3.23"
anyhow = "=1.0.104"
dptree = "=0.5.1"
serde = { version = "=1.0.229", features = ["derive"] }
