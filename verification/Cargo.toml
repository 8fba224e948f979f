[package]
name = "assistant_bridge"
version = "0.1.0"
edition = "2021"
publish = false

[dependencies]
async-openai = "=0.28.3"
flowsnet-platform-sdk = "=0.1.6"
log = "=0.4.34"
serde_json = "=1.0.151"
store-flows = "=0.3.2"
takecell = "=0.1.1"
tg-flows = "=0.4.0"
tokio = { version = "=1.53.2", features = ["macros", "rt", "time"] }
