[package]
name = "vrsr"
version = "0.1.0"
edition = "2021"
publish = false

[dependencies]
aes = "0.8"
bytes = "1"
cbc = "0.1"
clap = { version = "4", features = ["derive"] }
env_logger = "0.11"
futures = "0.3"
headless_chrome = "1"
hex = "0.4"
indicatif = "0.17"
log = "0.4"
m3u8-rs = "*"
reqwest = { version = "0.12", features = ["stream"] }
scraper = "*"
serde_json = "1"
sha256 = { version = "1", default-features = false }
thiserror = "1"
tokio = { version = "1", features = ["full"] }
url = "2"
