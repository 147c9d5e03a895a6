[package]
name = "rustydav"
version = "0.1.3"
edition = "2021"
publish = false

[dependencies]
reqwest = { version = "0.12", features = ["blocking"] }
http = "1"
url = "2"
