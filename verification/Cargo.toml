[package]
name = "padsync"
version = "0.1.0"
edition = "2021"
publish = false

[dependencies]
uuid = "*"
winapi = { version = "0.3", features = ["winerror", "xinput"] }
