[package]
name = "wakeonwan"
version = "0.1.1"
edition = "2021"
publish = false

[dependencies]
anyhow = "1"
clap = { version = "4", features = ["derive"] }
env_logger = "*"
http = "1"
log = "0.4"
macaddr = "1"
