[package]
name = "acp"
version = "0.1.0"
edition = "2021"
publish = false

[dependencies]
console = "=0.16.6"
dirs = "=7.0.0"
env_logger = "=0.11.11"
eventlog = "*"
fern = "=0.7.1"
humantime = "=2.4.0"
keyring = "=4.2.0"
log = "=0.4.34"
netwatcher = "=0.8.0"
notify-rust = "=4.18.2"
reqwest = { version = "=0.13.5", features = ["form"] }
serde = { version = "=1.0.229", features = ["derive"] }
serde_json = "=1.0.154"
thiserror = "=2.0.21"
tokio = { version = "=1.54.1", features = ["full"] }
