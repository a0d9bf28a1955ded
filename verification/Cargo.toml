[package]
name = "efw2"
version = "0.1.0"
edition = "2021"
publish = false

[dependencies]
chrono = "*"
clap = { version = "4", features = ["derive"] }
csv = "*"
serde = { version = "1", features = ["derive"] }
serde_yaml = "*"
unidecode = "*"
