[package]
name = "issue_info"
version = "0.1.0"
edition = "2021"
publish = false

[dependencies]
serde = "*"
serde_json = "*"
url = "*"
url-matcher = "*"
reqwest = { version = "*", default-features = false }
futures = "*"
log = "*"
thiserror = "*"
