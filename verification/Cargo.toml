[package]
name = "srsa"
version = "0.1.0"
edition = "2021"
publish = false

[dependencies]
rsa = { version = "=0.8.2", features = ["pkcs5"] }
pkcs8 = { version = "=0.9.0", features = ["encryption", "pem", "std"] }
rand = "=0.8.8"
