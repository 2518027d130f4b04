[package]
name = "cities_client"
version = "0.1.0"
edition = "2021"
publish = false

[dependencies]
reqwest = "0.12"
serde_json = "1"
url = "2"
