[package]
name = "wgslsmith"
version = "0.1.0"
edition = "2021"
publish = false

[dependencies]
rand = "0.8"
regex = "1"
clap = { version = "4", features = ["derive"] }
serde = { version = "1", features = ["derive"] }
serde_json = "1"
anyhow = "1"
time = { version = "0.3", features = ["formatting", "local-offset"] }
wait-timeout = "0.2"
eyre = "0.6"
indenter = "0.3"
