[package]
name = "deployc"
version = "0.1.0"
edition = "2021"
publish = false

[dependencies]
base64 = "*"
chrono = { version = "*", features = ["serde"] }
chrono-humanize = "*"
clap = "*"
colored = "*"
rand = "*"
regex = "*"
reqwest = { version = "*", features = ["blocking", "json", "multipart"] }
serde = { version = "*", features = ["derive"] }
serde_json = "*"
slug = "*"
tar = "*"
termion = "*"
url = { version = "*", features = ["serde"] }
