[package]
name = "alert_relay"
version = "0.1.0"
edition = "2021"
publish = false

[dependencies]
json = "0.12"
reqwest = { version = "0.11", features = ["blocking"] }
widestring = "1"
