[package]
name = "jnv"
version = "0.1.0"
edition = "2021"
publish = false

[dependencies]
jaq-core = "=1.5.1"
jaq-interpret = "=1.5.0"
jaq-parse = "=1.0.3"
jaq-std = "=1.6.0"
serde_json = "=1.0.151"
promkit = { version = "=0.9.1", features = ["json"] }
anyhow = "=1.0.104"
clap = { version = "=4.6.7", features = ["derive"] }
crossterm = "=0.28.1"
serde = { version = "=1.0.229", features = ["derive"] }
toml = "=0.8.23"
dirs = "=5.0.1"
duration-string = "=0.4.0"
