[package]
name = "csx"
version = "0.1.0"
edition = "2021"
publish = false

[dependencies]
candid = { version = "=0.9.11", features = ["parser"] }
url = "=2.5.8"
dns-lookup = "=2.1.1"
ethabi = "=18.0.0"
Inflector = "=0.11.4"
regex = "=1.13.1"
regex-syntax = "=0.8.11"
dotenvy = "=0.15.7"
serde = { version = "=1.0.229", features = ["derive"] }
serde_json = "=1.0.154"
serde_yaml = "=0.9.34"
dialoguer = "=0.11.0"
anyhow = "=1.0.104"
clap = { version = "=4.6.7", features = ["derive"] }
slog = "=2.8.2"
slog-term = "=2.9.2"
slog-async = "=2.8.0"
ureq = { version = "=2.12.1", features = ["json"] }
hex = "=0.4.3"
syn = { version = "=2.0.119", features = ["full"] }
quote = "=1.0.47"
