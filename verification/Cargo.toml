[package]
name = "voice_input"
version = "0.1.0"
edition = "2021"
publish = false

[dependencies]
tokio = { version = "1", features = ["rt", "sync", "time"] }
async-trait = "0.1"
log = "0.4"
env_logger = "0.11"
serde = { version = "1", features = ["derive"] }
serde_json = "1"
toml = "0.8"
directories = "5"
keyring = "3"
reqwest = { version = "0.12", default-features = false, features = ["multipart"] }
cpal = "0.15"
global-hotkey = "0.6"
ashpd = { version = "0.10", default-features = false, features = ["tokio"] }
futures-util = "0.3"
x11rb = { version = "0.13", features = ["xtest"] }
arboard = "3"
