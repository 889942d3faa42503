[package]
name = "basis"
version = "0.1.0"
edition = "2021"
publish = false

[dependencies]
chrono = "0.4"
git2 = { version = "*", default-features = false }

[dev-dependencies]
tempfile = "*"
