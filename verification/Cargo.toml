[package]
name = "checker_bot"
version = "0.1.0"
edition = "2021"
publish = false

[dependencies]
anyhow = "*"
clap = { version = "*", features = ["derive"] }
env_logger = "*"
futures = "*"
hex = "=0.4.3"
log = "*"
reqwest = { version = "*", default-features = false, features = ["json"] }
serde = { version = "*", features = ["derive"] }
serde_json = "*"
sha2 = "=0.11.0"
thiserror = "*"
tokio = { version = "*", features = ["macros", "rt", "time", "fs", "signal"] }
toml = "*"
url = "=2.5.8"
