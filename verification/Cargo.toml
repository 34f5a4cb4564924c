[package]
name = "pretty_ls"
version = "0.1.0"
edition = "2021"
publish = false

[dependencies]
chrono = "*"
serde_json = "*"
tabled = "*"
clap = { version = "*", features = ["derive"] }
owo-colors = "*"
