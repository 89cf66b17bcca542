[package]
name = "mk_rss"
version = "0.1.0"
edition = "2021"
publish = false

[dependencies]
chrono = "*"
chrono-english = "*"
reqwest = { version = "*", default-features = false, features = ["blocking"] }
scraper = "*"
url = "*"
