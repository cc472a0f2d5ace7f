[package]
name = "msr"
version = "0.1.0"
edition = "2021"
publish = false

[dependencies]
anyhow = "1"
config = { version = "0.13", default-features = false, features = ["toml"] }
curl = "0.4"
futures = "0.3"
mammut = "0.13"
misskey = "0.2"
os_type = "2"
reqwest = "0.11"
seahorse = "2"
serde = "1"
serde_derive = "1"
serde_json = "1"
shellexpand = "3"
tokio = { version = "1", features = ["macros", "rt-multi-thread"] }
toml = "0.5"
url = "2"
