[package]
name = "rusty_journal"
version = "0.1.0"
edition = "2021"
publish = false

[dependencies]
anyhow = "=1.0.104"
chrono = "=0.4.45"
home = "=0.5.12"
serde_json = "=1.0.154"
structopt = "=0.3.26"
