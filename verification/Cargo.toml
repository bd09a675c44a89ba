[package]
name = "tika_build"
version = "0.1.0"
edition = "2021"
publish = false

[dependencies]
dunce = "1"
extractous = "*"
flate2 = "1"
reqwest = { version = "0.12", default-features = false, features = ["blocking", "rustls-tls"] }
tar = "0.4"
zip = { version = "2", default-features = false, features = ["deflate"] }
