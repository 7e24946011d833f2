[package]
name = "jirust"
version = "0.1.0"
edition = "2021"
publish = false

[dependencies]
anyhow = "1"
async-trait = "0.1"
base64 = "=0.21.7"
crossterm = "=0.25.0"
env_logger = "0.10"
html2md = "=0.2.17"
htmltoadf = "=0.1.13"
log = "0.4"
markdown = "=1.0.0"
open = "5"
reqwest = { version = "0.11", default-features = false, features = ["rustls-tls"] }
serde = { version = "1", features = ["derive"] }
serde_json = "1"
simsearch = "0.2"
tokio = { version = "1", features = ["full"] }
toml = "0.7"
tui = "=0.19.0"
