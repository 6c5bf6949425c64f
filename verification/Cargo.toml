[package]
name = "meerai"
version = "0.1.0"
edition = "2021"
publish = false

[dependencies]
convert_case = "=0.12.0"
serde_json = "=1.0.154"
serde_yaml = "=0.9.34"
serde = { version = "=1.0.229", features = ["derive"] }
anyhow = "=1.0.104"
tokio = { version = "=1.54.1", features = ["full"] }
ractor = "=0.16.5"
async-openai = { version = "=0.42.2", features = ["chat-completion"] }
reqwest = "=0.13.5"
secrecy = "=0.10.3"
dotenv = "=0.15.0"
tracing = "=0.1.44"
tracing-glog = "=0.4.1"
tracing-subscriber = { version = "=0.3.23", features = ["env-filter"] }
bsky-sdk = "=0.1.24"
atrium-api = "=0.25.8"
agent-twitter-client = "=0.1.2"

[dev-dependencies]
regex = "=1.13.1"
