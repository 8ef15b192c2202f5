[package]
name = "musd"
version = "0.1.0"
edition = "2021"
publish = false

[dependencies]
url = "2"
serde_json = "1"
clap = { version = "3", features = ["derive"] }
reqwest = { version = "0.11", features = ["stream"] }
tokio = { version = "1", features = ["macros", "rt-multi-thread"] }
futures-util = "0.3"
indicatif = "0.17"
dialoguer = "0.10"
yansi = "1"
tabled = "0.12"
shadow-rs = { version = "*", default-features = false }
