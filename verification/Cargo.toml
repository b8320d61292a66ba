[package]
name = "hi_think_financial"
version = "0.1.6"
edition = "2021"
publish = false

[dependencies]
anyhow = "1"
reqwest = { version = "0.12", features = ["json"] }
serde = { version = "1", features = ["derive"] }
serde_urlencoded = "0.7"
