[package]
name = "msal"
version = "0.1.0"
edition = "2021"
publish = false

[dependencies]
base64 = "=0.21.7"
serde_json = "1"
urlencoding = "=2.1.3"
uuid = "1"
reqwest = { version = "=0.11.27", default-features = false }
os-release = "*"
compact_jwt = { version = "=0.4.3", features = ["hsm-crypto"] }
kanidm-hsm-crypto = "=0.2.0"
