[package]
name = "observer"
version = "0.1.0"
edition = "2021"
publish = false

[dependencies]
call-agent = "*"
log = "*"
playwright = "*"
regex = "*"
reqwest = "*"
scraper = "*"
serde = { version = "*", features = ["derive"] }
serde_json = "*"
serenity = "*"
tokio = { version = "*", features = ["full"] }
