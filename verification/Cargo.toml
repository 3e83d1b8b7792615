[package]
name = "txtv"
version = "0.1.0"
edition = "2021"
publish = false

[dependencies]
base64 = "*"
image = "*"
scraper = "*"
reqwest = { version = "*", default-features = false, features = ["blocking"] }
crossterm = "*"
viuer = "*"
