[package]
name = "redskull"
version = "0.1.4"
edition = "2021"
publish = false

[dependencies]
toml = "=0.8.23"
regex = "=1.13.1"
sha2 = "=0.10.9"
serde_json = "=1.0.154"
anyhow = "=1.0.104"
log = "=0.4.35"
env_logger = "=0.11.11"
clap = { version = "=4.6.7", features = ["derive"] }
reqwest = { version = "=0.12.28", default-features = false, features = ["blocking", "json", "rustls-tls"] }
crates_io_api = { version = "=0.12.0", default-features = false, features = ["rustls"] }
mimalloc = "=0.1.52"
flate2 = "=1.1.10"
tar = "=0.4.46"
