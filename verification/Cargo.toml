[package]
name = "june_analytics"
version = "0.1.0"
edition = "2021"
publish = false

[dependencies]
serde = { version = "1", features = ["derive"] }
serde_json = "1"
time = { version = "0.3", features = ["formatting", "parsing", "serde", "serde-well-known"] }
url = "2"
reqwest = { version = "0.12", default-features = false, features = ["blocking"] }
clap = "4"
crossbeam-channel = "0.5"
