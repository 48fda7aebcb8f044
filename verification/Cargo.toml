[package]
name = "email_sleuth_core"
version = "0.1.0"
edition = "2021"
publish = false

[dependencies]
anyhow = "1"
fantoccini = "0.21"
futures = "0.3"
lettre = { version = "0.11", default-features = false, features = ["smtp-transport", "tokio1", "tokio1-native-tls", "builder"] }
rand = "0.8"
regex = "1"
reqwest = { version = "0.12", default-features = false }
serde = { version = "1", features = ["derive"] }
serde_json = "1"
thiserror = "1"
tokio = { version = "1", features = ["full"] }
tracing = "0.1"
trust-dns-resolver = "0.23"
url = "2"
