[package]
name = "digest_negotiator"
version = "0.1.0"
edition = "2021"
publish = false

[dependencies]
reqwest = { version = "*", default-features = false }
url = "*"
digest_auth = "*"

[dev-dependencies]
http = "*"
