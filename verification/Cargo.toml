[package]
name = "extension_host"
version = "0.1.0"
edition = "2021"
publish = false

[dependencies]
case = "1"
dashmap = "6"
deadpool = "*"
fixedbitset = "0.5"
futures = "0.3"
http = "1"
http-body = "1"
indexmap = "2"
semver = "1"
serde = { version = "1", features = ["derive"] }
serde_json = "1"
thiserror = "*"
tokio = { version = "1", features = ["sync", "time", "rt", "macros"] }
tower = "*"
ulid = "1"
url = "2"
