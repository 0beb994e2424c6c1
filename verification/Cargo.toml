[package]
name = "treasury"
version = "0.1.0"
edition = "2021"
publish = false

[dependencies]
argon2 = "0.5"
axum = { version = "0.7", features = ["multipart"] }
base64 = "0.22"
blake3 = "1"
bytesize = "1"
clap = { version = "4", features = ["cargo"] }
console = "*"
ctrlc = "3"
dashmap = "6"
dialoguer = "*"
dotenvy = "*"
env_logger = "*"
http = "1"
log = "0.4"
nanoid = "0.4"
path-absolutize = "3"
regex = "1"
rusqlite = { version = "*", features = ["bundled"] }
serde = { version = "1", features = ["derive"] }
serde_json = "1"
tokio = { version = "1", features = ["full"] }
tokio-util = { version = "0.7", features = ["io"] }
tower-http = { version = "0.5", features = ["cors", "fs", "compression-gzip"] }
tower-sessions = { version = "0.12", features = ["signed"] }
