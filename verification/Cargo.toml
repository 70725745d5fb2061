[package]
name = "cgeos2"
version = "0.1.0"
edition = "2021"
publish = false

[dependencies]
anyhow = "1"
clap = { version = "4", features = ["derive"] }
serde_json = "1"
url = "2"
uuid = { version = "1", features = ["v4", "serde"] }
