[package]
name = "external_recipe"
version = "0.1.0"
edition = "2021"
publish = false

[dependencies]
url = "*"
regex = "*"
reqwest = { version = "*", default-features = false, features = ["blocking"] }
