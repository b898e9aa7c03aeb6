[package]
name = "telemon"
version = "0.1.0"
edition = "2021"
publish = false

[dependencies]
toml = "*"
once_cell = "*"
reqwest = { version = "*", default-features = false, features = ["blocking"] }
