[package]
name = "steingass_scraper"
version = "0.1.0"
edition = "2021"
publish = false

[dependencies]
anyhow = "1"
regex = "1"
reqwest = { version = "*", features = ["blocking"] }
rusqlite = "*"
scraper = "*"
tempfile = "3"
