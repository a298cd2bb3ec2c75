[package]
name = "charlcd"
version = "0.1.0"
edition = "2021"

[dependencies]
unidecode = "*"
clerk = "*"
gpio-cdev = "*"
serde = { version = "*", features = ["derive"] }
toml = "*"
