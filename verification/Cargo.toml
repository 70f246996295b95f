[package]
name = "breez_sdk_core"
version = "0.1.0"
edition = "2021"
publish = false

[dependencies]
bech32 = "0.11"
bitcoin = "0.32"
hex = "0.4"
lightning = "0.1"
percent-encoding-rfc3986 = "0.1"
serde_json = "1"
url = "2"
anyhow = "1"
clap = { version = "4", features = ["derive"] }
hickory-resolver = "0.25"
reqwest = { version = "0.12", default-features = false, features = ["rustls-tls"] }
serde = { version = "1", features = ["derive"] }
tokio = { version = "1", features = ["macros", "rt-multi-thread"] }
