[package]
name = "typship"
version = "0.1.0"
edition = "2021"
publish = false

[dependencies]
typst-syntax = "=0.15.1"
url = "=2.5.8"
regex = "=1.13.1"
glob = "=0.3.4"
sha2 = "=0.11.1"
tar = "=0.4.46"
flate2 = "=1.1.10"
anyhow = "*"
clap = { version = "*", features = ["derive"] }
tokio = { version = "*", features = ["rt-multi-thread", "macros", "io-std", "io-util"] }
octocrab = "=0.44.1"
reqwest = { version = "*", features = ["blocking"] }
dialoguer = "*"
dirs = "*"
ignore = "*"
walkdir = "*"
toml = "*"
serde = { version = "*", features = ["derive"] }
env_logger = "*"
log = "*"
tempfile = "*"
whoami = "*"
secrecy = "*"
futures-util = "*"
