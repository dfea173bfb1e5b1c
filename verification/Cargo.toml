[package]
name = "cringe_radio"
version = "0.1.0"
edition = "2021"
publish = false

[dependencies]
anyhow = "1"
async-trait = "0.1"
clap = { version = "4", features = ["derive"] }
env_logger = "0.10"
log = "0.4"
reqwest = { version = "0.11", features = ["json"] }
serde = { version = "1", features = ["derive"] }
serde_json = "1"
serenity = "0.11"
songbird = "0.3"
tokio = { version = "1", features = ["macros", "rt-multi-thread", "time"] }
url = "2"

[dev-dependencies]
regex = "1"
