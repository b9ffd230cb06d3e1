[package]
name = "ipdata"
version = "0.2.0"
edition = "2021"
publish = false

[dependencies]
serde_json = "*"
url = "*"
http = "*"
reqwest = { version = "*", default-features = false, features = ["blocking"] }
