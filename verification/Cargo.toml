[package]
name = "fleeting"
version = "0.1.0"
edition = "2021"
publish = false

[dependencies]
ansi-to-html = "0.2"
anyhow = "1"
async-trait = "0.1"
aws-config = { version = "1", default-features = false, features = ["rt-tokio"] }
aws-sdk-sts = { version = "1", default-features = false, features = ["rt-tokio"] }
base64 = "=0.22.1"
clap = { version = "4", features = ["derive", "wrap_help"] }
color-print = "0.3"
dirs = "5"
either = "1"
futures = "0.3"
glob = "0.3"
hex = "=0.4.3"
indoc = "2"
log = "0.4"
rand = "=0.8.8"
rcgen = "=0.13.2"
reqwest = { version = "=0.12.28", default-features = false, features = ["rustls-tls"] }
russh = "=0.45.0"
scraper = "=0.20.0"
semver = "=1.0.28"
serde = { version = "1", features = ["derive"] }
serde_json = "=1.0.154"
sha2 = "=0.10.9"
sysinfo = "0.31"
tokio = { version = "1", features = ["full"] }
